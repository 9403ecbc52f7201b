//! Extraction of entry-point declarations from the user source.
//!
//! The convention for exported functions of the shared-object crate is
//! narrow: the no-mangle attribute on a line of its own, then a public C-ABI
//! function whose whole signature stands on one line. The scanner walks the
//! source text, and for each such declaration captures the identifier and the
//! signature (the parameter list with its return clause).

use vstd::prelude::*;

verus! {

/// A declared entry point: its name and its signature, the latter running
/// from the opening parenthesis of the parameter list to the end of the
/// return clause.
pub struct EntryPoint {
    /// The identifier under which the function is exported.
    pub name: String,
    /// The parameter list and return clause, as written.
    pub sig: String,
}

impl View for EntryPoint {
    type V = (Seq<char>, Seq<char>);

    open spec fn view(&self) -> (Seq<char>, Seq<char>) {
        (self.name@, self.sig@)
    }
}

/// The text that announces an entry point: the no-mangle attribute on its own
/// line, then the head of a public C-ABI function.
pub open spec fn marker() -> Seq<char> {
    "#[unsafe(no_mangle)]\npub extern \"C\" fn "@
}

/// Holds for the characters an exported identifier consists of.
pub open spec fn is_ident_char(c: char) -> bool {
    ||| 'a' <= c <= 'z'
    ||| 'A' <= c <= 'Z'
    ||| '0' <= c <= '9'
    ||| c == '_'
}

/// The end of the run of identifier characters that starts at `i`.
pub open spec fn ident_end(s: Seq<char>, i: int) -> int
    decreases s.len() - i,
{
    if i < 0 || i >= s.len() {
        i
    } else if is_ident_char(s[i]) {
        ident_end(s, i + 1)
    } else {
        i
    }
}

/// The position of the next line break at or after `i`, or the end of the
/// text.
pub open spec fn line_end(s: Seq<char>, i: int) -> int
    decreases s.len() - i,
{
    if i < 0 {
        i
    } else if i >= s.len() {
        s.len() as int
    } else if s[i] == '\n' {
        i
    } else {
        line_end(s, i + 1)
    }
}

/// Holds when `pat` occurs at position `i` of `s`.
pub open spec fn matches_at(s: Seq<char>, i: int, pat: Seq<char>) -> bool {
    0 <= i && i + pat.len() <= s.len() && s.subrange(i, i + pat.len()) == pat
}

/// Holds when an entry-point declaration begins at position `i`: the marker,
/// a nonempty identifier, then a parameter list that opens right after the
/// name and runs to a brace at the end of the same line.
pub open spec fn entry_at(s: Seq<char>, i: int) -> bool {
    let p = i + marker().len();
    let j = ident_end(s, p);
    let k = line_end(s, j);
    &&& matches_at(s, i, marker())
    &&& j > p
    &&& j < s.len()
    &&& s[j] == '('
    &&& k - j >= 4
    &&& s[k - 2] == ' '
    &&& s[k - 1] == '{'
}

/// The name of the entry point declared at position `i`.
pub open spec fn entry_name(s: Seq<char>, i: int) -> Seq<char> {
    s.subrange(i + marker().len(), ident_end(s, i + marker().len()))
}

/// The signature of the entry point declared at position `i`.
pub open spec fn entry_sig(s: Seq<char>, i: int) -> Seq<char> {
    let j = ident_end(s, i + marker().len());
    s.subrange(j, line_end(s, j) - 2)
}

/// Every entry point declared at or after position `i`, in order of
/// declaration.
pub open spec fn entries_from(s: Seq<char>, i: int) -> Seq<(Seq<char>, Seq<char>)>
    decreases s.len() - i,
{
    if i < 0 || i >= s.len() {
        Seq::empty()
    } else if entry_at(s, i) {
        seq![(entry_name(s, i), entry_sig(s, i))] + entries_from(s, i + 1)
    } else {
        entries_from(s, i + 1)
    }
}

/// Every entry point declared in the source, in order of declaration.
pub open spec fn spec_entry_points(s: Seq<char>) -> Seq<(Seq<char>, Seq<char>)> {
    entries_from(s, 0)
}

fn is_ident_char_exec(c: char) -> (r: bool)
    ensures
        r == is_ident_char(c),
{
    ('a' <= c && c <= 'z') || ('A' <= c && c <= 'Z') || ('0' <= c && c <= '9') || c == '_'
}

/// Compares the text at position `i` with `pat`.
pub fn str_matches_at(s: &str, i: usize, pat: &str) -> (r: bool)
    requires
        i <= s@.len(),
    ensures
        r == matches_at(s@, i as int, pat@),
{
    let n = s.unicode_len();
    let m = pat.unicode_len();
    if m > n - i {
        return false;
    }
    let mut t: usize = 0;
    while t < m
        invariant
            i + m <= n,
            n == s@.len(),
            m == pat@.len(),
            t <= m,
            forall|q: int| 0 <= q < t ==> s@[i + q] == pat@[q],
        decreases m - t,
    {
        if s.get_char(i + t) != pat.get_char(t) {
            proof {
                assert(s@.subrange(i as int, i + m as int) != pat@) by {
                    if s@.subrange(i as int, i + m as int) == pat@ {
                        assert(s@.subrange(i as int, i + m as int)[t as int] == s@[i + t]);
                    }
                }
            }
            return false;
        }
        t += 1;
    }
    proof {
        assert(s@.subrange(i as int, i + m as int) =~= pat@);
    }
    true
}

/// Walks past the identifier characters that start at `i`.
fn ident_end_at(s: &str, i: usize) -> (r: usize)
    requires
        i <= s@.len(),
    ensures
        r == ident_end(s@, i as int),
        i <= r <= s@.len(),
{
    let n = s.unicode_len();
    let mut j: usize = i;
    while j < n && is_ident_char_exec(s.get_char(j))
        invariant
            i <= j <= n,
            n == s@.len(),
            ident_end(s@, i as int) == ident_end(s@, j as int),
        decreases n - j,
    {
        j += 1;
    }
    j
}

/// Walks to the end of the line that position `i` lies on.
fn line_end_at(s: &str, i: usize) -> (r: usize)
    requires
        i <= s@.len(),
    ensures
        r == line_end(s@, i as int),
        i <= r <= s@.len(),
{
    let n = s.unicode_len();
    let mut j: usize = i;
    while j < n && s.get_char(j) != '\n'
        invariant
            i <= j <= n,
            n == s@.len(),
            line_end(s@, i as int) == line_end(s@, j as int),
        decreases n - j,
    {
        j += 1;
    }
    j
}

/// Reads the entry-point declaration at position `i`, if one begins there.
fn try_entry_at(s: &str, i: usize) -> (r: Option<EntryPoint>)
    requires
        i < s@.len(),
    ensures
        match r {
            Some(e) => {
                &&& entry_at(s@, i as int)
                &&& e@.0 == entry_name(s@, i as int)
                &&& e@.1 == entry_sig(s@, i as int)
            },
            None => !entry_at(s@, i as int),
        },
{
    let n = s.unicode_len();
    let marker_str = "#[unsafe(no_mangle)]\npub extern \"C\" fn ";
    if !str_matches_at(s, i, marker_str) {
        return None;
    }
    let p = i + marker_str.unicode_len();
    let j = ident_end_at(s, p);
    if j == p {
        return None;
    }
    if j == n {
        return None;
    }
    if s.get_char(j) != '(' {
        return None;
    }
    let k = line_end_at(s, j);
    if k - j < 4 {
        return None;
    }
    if s.get_char(k - 2) != ' ' || s.get_char(k - 1) != '{' {
        return None;
    }
    let name = String::from_str(s.substring_char(p, j));
    let sig = String::from_str(s.substring_char(j, k - 2));
    Some(EntryPoint { name, sig })
}

/// Extracts every entry-point declaration of the source, in order.
pub fn scan_entry_points(s: &str) -> (v: Vec<EntryPoint>)
    ensures
        v@.map_values(|e: EntryPoint| e@) == spec_entry_points(s@),
{
    let n = s.unicode_len();
    let mut v: Vec<EntryPoint> = Vec::new();
    let mut i: usize = 0;
    while i < n
        invariant
            i <= n,
            n == s@.len(),
            v@.map_values(|e: EntryPoint| e@) + entries_from(s@, i as int) == entries_from(
                s@,
                0,
            ),
        decreases n - i,
    {
        let ghost prev = v@.map_values(|e: EntryPoint| e@);
        match try_entry_at(s, i) {
            Some(e) => {
                let ghost ev = e@;
                v.push(e);
                proof {
                    assert(v@.map_values(|e: EntryPoint| e@) =~= prev.push(ev));
                    assert(prev.push(ev) + entries_from(s@, i + 1) =~= prev + (seq![ev]
                        + entries_from(s@, i + 1)));
                }
            },
            None => {
            },
        }
        i += 1;
    }
    proof {
        assert(v@.map_values(|e: EntryPoint| e@) + entries_from(s@, n as int) =~= v@.map_values(
            |e: EntryPoint| e@,
        ));
    }
    v
}

} // verus!

verus! {

/// The first position at or after `i` holding `c`, or the end of the text.
pub open spec fn find_char_from(s: Seq<char>, c: char, i: int) -> int
    decreases s.len() - i,
{
    if i < 0 {
        i
    } else if i >= s.len() {
        s.len() as int
    } else if s[i] == c {
        i
    } else {
        find_char_from(s, c, i + 1)
    }
}

/// The last position holding `c`, or -1 when none does.
pub open spec fn rfind_char(s: Seq<char>, c: char) -> int
    decreases s.len(),
{
    if s.len() == 0 {
        -1
    } else if s[s.len() - 1] == c {
        s.len() - 1
    } else {
        rfind_char(s.drop_last(), c)
    }
}

/// Holds for the whitespace that may surround a parameter name.
pub open spec fn is_space(c: char) -> bool {
    c == ' ' || c == '\t'
}

/// The text with its leading whitespace removed.
pub open spec fn trim_start(p: Seq<char>) -> Seq<char>
    decreases p.len(),
{
    if p.len() > 0 && is_space(p[0]) {
        trim_start(p.drop_first())
    } else {
        p
    }
}

/// The text with its trailing whitespace removed.
pub open spec fn trim_end(p: Seq<char>) -> Seq<char>
    decreases p.len(),
{
    if p.len() > 0 && is_space(p[p.len() - 1]) {
        trim_end(p.drop_last())
    } else {
        p
    }
}

/// The text with whitespace removed at both ends.
pub open spec fn trimmed(p: Seq<char>) -> Seq<char> {
    trim_end(trim_start(p))
}

/// The parameter name of one comma-separated piece of a parameter list: what
/// stands before the first colon, trimmed. A piece without a colon, or with
/// nothing before it, names no parameter.
pub open spec fn piece_param(p: Seq<char>) -> Option<Seq<char>> {
    let c = find_char_from(p, ':', 0);
    if c >= p.len() {
        None
    } else {
        let t = trimmed(p.take(c));
        if t.len() > 0 {
            Some(t)
        } else {
            None
        }
    }
}

/// The comma-separated pieces of the region between the parentheses.
pub open spec fn split_params(r: Seq<char>) -> Seq<Seq<char>>
    decreases r.len(),
{
    let e = find_char_from(r, ',', 0);
    if 0 <= e < r.len() {
        seq![r.take(e)] + split_params(r.subrange(e + 1, r.len() as int))
    } else {
        seq![r]
    }
}

/// The parameter names among the pieces, in order.
pub open spec fn params_of(pieces: Seq<Seq<char>>) -> Seq<Seq<char>>
    decreases pieces.len(),
{
    if pieces.len() == 0 {
        Seq::empty()
    } else {
        match piece_param(pieces[0]) {
            Some(t) => seq![t] + params_of(pieces.drop_first()),
            None => params_of(pieces.drop_first()),
        }
    }
}

/// The parameter names of a signature: the names of the comma-separated
/// pieces between the first opening parenthesis and the last closing one.
pub open spec fn spec_param_names(sig: Seq<char>) -> Seq<Seq<char>> {
    let open = find_char_from(sig, '(', 0);
    let close = rfind_char(sig, ')');
    if open >= sig.len() || close <= open {
        Seq::empty()
    } else {
        params_of(split_params(sig.subrange(open + 1, close)))
    }
}

/// The parameter names joined with commas, as a call's argument list.
pub open spec fn join_args(ns: Seq<Seq<char>>) -> Seq<char>
    decreases ns.len(),
{
    if ns.len() == 0 {
        Seq::empty()
    } else if ns.len() == 1 {
        ns[0]
    } else {
        join_args(ns.drop_last()) + ", "@ + ns.last()
    }
}

fn find_char_at(s: &str, c: char, i: usize) -> (r: usize)
    requires
        i <= s@.len(),
    ensures
        r == find_char_from(s@, c, i as int),
        i <= r <= s@.len(),
{
    let n = s.unicode_len();
    let mut j: usize = i;
    while j < n && s.get_char(j) != c
        invariant
            i <= j <= n,
            n == s@.len(),
            find_char_from(s@, c, i as int) == find_char_from(s@, c, j as int),
        decreases n - j,
    {
        j += 1;
    }
    j
}

fn rfind_char_exec(s: &str, c: char) -> (r: Option<usize>)
    ensures
        match r {
            Some(x) => rfind_char(s@, c) == x && x < s@.len(),
            None => rfind_char(s@, c) == -1,
        },
{
    let n = s.unicode_len();
    proof {
        assert(s@.take(n as int) =~= s@);
    }
    let mut j: usize = n;
    while j > 0
        invariant
            j <= n,
            n == s@.len(),
            rfind_char(s@, c) == rfind_char(s@.take(j as int), c),
        decreases j,
    {
        let jj = j - 1;
        if s.get_char(jj) == c {
            proof {
                assert(s@.take(j as int)[j - 1] == s@[jj as int]);
            }
            return Some(jj);
        }
        proof {
            assert(s@.take(j as int).drop_last() =~= s@.take(jj as int));
        }
        j = jj;
    }
    proof {
        assert(s@.take(0) =~= Seq::<char>::empty());
    }
    None
}

fn trim_start_exec(s: &str) -> (r: &str)
    ensures
        r@ == trim_start(s@),
    decreases s@.len(),
{
    let n = s.unicode_len();
    if n > 0 {
        let c = s.get_char(0);
        if c == ' ' || c == '\t' {
            let rest = s.substring_char(1, n);
            proof {
                assert(rest@ =~= s@.drop_first());
            }
            return trim_start_exec(rest);
        }
    }
    s
}

fn trim_end_exec(s: &str) -> (r: &str)
    ensures
        r@ == trim_end(s@),
    decreases s@.len(),
{
    let n = s.unicode_len();
    if n > 0 {
        let c = s.get_char(n - 1);
        if c == ' ' || c == '\t' {
            let rest = s.substring_char(0, n - 1);
            proof {
                assert(rest@ =~= s@.drop_last());
            }
            return trim_end_exec(rest);
        }
    }
    s
}

fn piece_param_exec(p: &str) -> (r: Option<String>)
    ensures
        match r {
            Some(t) => piece_param(p@) == Some(t@),
            None => piece_param(p@) is None,
        },
{
    let n = p.unicode_len();
    let c = find_char_at(p, ':', 0);
    if c == n {
        return None;
    }
    let head = p.substring_char(0, c);
    proof {
        assert(head@ =~= p@.take(c as int));
    }
    let t = trim_end_exec(trim_start_exec(head));
    if t.unicode_len() > 0 {
        Some(String::from_str(t))
    } else {
        None
    }
}

fn params_of_region(r: &str) -> (v: Vec<String>)
    ensures
        v@.map_values(|t: String| t@) == params_of(split_params(r@)),
    decreases r@.len(),
{
    let n = r.unicode_len();
    let e = find_char_at(r, ',', 0);
    let mut v: Vec<String> = Vec::new();
    if e == n {
        proof {
            assert(split_params(r@) =~= seq![r@]);
            assert(seq![r@].drop_first() =~= Seq::<Seq<char>>::empty());
            assert(params_of(Seq::<Seq<char>>::empty()) == Seq::<Seq<char>>::empty());
        }
        match piece_param_exec(r) {
            Some(t) => {
                let ghost tv = t@;
                v.push(t);
                proof {
                    assert(v@.map_values(|t: String| t@) =~= seq![tv]);
                    assert(seq![tv] =~= params_of(split_params(r@)));
                }
            },
            None => {
                proof {
                    assert(v@.map_values(|t: String| t@) =~= params_of(split_params(r@)));
                }
            },
        }
        return v;
    }
    let piece = r.substring_char(0, e);
    let rest = r.substring_char(e + 1, n);
    proof {
        assert(piece@ =~= r@.take(e as int));
        assert(rest@ =~= r@.subrange(e + 1, r@.len() as int));
        assert((seq![r@.take(e as int)] + split_params(rest@)).drop_first() =~= split_params(
            rest@,
        ));
    }
    let head = piece_param_exec(piece);
    let mut tail = params_of_region(rest);
    match head {
        Some(t) => {
            let ghost tv = t@;
            v.push(t);
            v.append(&mut tail);
            proof {
                assert(v@.map_values(|t: String| t@) =~= seq![tv] + params_of(
                    split_params(rest@),
                ));
            }
        },
        None => {
            v.append(&mut tail);
            proof {
                assert(v@.map_values(|t: String| t@) =~= params_of(split_params(rest@)));
            }
        },
    }
    v
}

/// Extracts the parameter names of one signature, in order.
pub fn param_names(sig: &str) -> (v: Vec<String>)
    ensures
        v@.map_values(|t: String| t@) == spec_param_names(sig@),
{
    let n = sig.unicode_len();
    let open = find_char_at(sig, '(', 0);
    if open == n {
        return Vec::new();
    }
    let close = match rfind_char_exec(sig, ')') {
        Some(x) => x,
        None => {
            return Vec::new();
        },
    };
    if close <= open {
        return Vec::new();
    }
    let region = sig.substring_char(open + 1, close);
    proof {
        assert(region@ =~= sig@.subrange(open + 1, close as int));
    }
    params_of_region(region)
}

/// Joins parameter names into the argument list of a forwarding call.
pub fn join_params(v: &Vec<String>) -> (r: String)
    ensures
        r@ == join_args(v@.map_values(|t: String| t@)),
{
    let ghost m = v@.map_values(|t: String| t@);
    let mut s = String::new();
    let mut i: usize = 0;
    while i < v.len()
        invariant
            i <= v@.len(),
            m == v@.map_values(|t: String| t@),
            s@ == join_args(m.take(i as int)),
        decreases v@.len() - i,
    {
        if i > 0 {
            s.append(", ");
        }
        s.append(v[i].as_str());
        proof {
            assert(m.take(i + 1).drop_last() =~= m.take(i as int));
            assert(m.take(i + 1).last() == m[i as int]);
            if i == 0 {
                assert(s@ =~= join_args(m.take(i + 1)));
            }
        }
        i += 1;
    }
    proof {
        assert(m.take(v@.len() as int) =~= m);
    }
    s
}

} // verus!

verus! {

/// Everything up to the end of an identifier run consists of identifier
/// characters, and the run stays within the text.
pub proof fn lemma_ident_run(s: Seq<char>, i: int)
    requires
        0 <= i <= s.len(),
    ensures
        i <= ident_end(s, i) <= s.len(),
        forall|t: int| i <= t < ident_end(s, i) ==> is_ident_char(#[trigger] s[t]),
    decreases s.len() - i,
{
    if i < s.len() && is_ident_char(s[i]) {
        lemma_ident_run(s, i + 1);
    }
}

/// Every extracted entry-point name is a nonempty ASCII identifier.
pub proof fn lemma_entry_names_ascii(s: Seq<char>, i: int)
    ensures
        forall|t: int|
            0 <= t < entries_from(s, i).len() ==> vstd::utf8::is_ascii_chars(
                #[trigger] entries_from(s, i)[t].0,
            ) && entries_from(s, i)[t].0.len() > 0,
    decreases s.len() - i,
{
    if i < 0 || i >= s.len() {
    } else {
        lemma_entry_names_ascii(s, i + 1);
        if entry_at(s, i) {
            let p = i + marker().len();
            let name = entry_name(s, i);
            lemma_ident_run(s, p);
            assert forall|q: int| 0 <= q < name.len() implies '\0' <= #[trigger] name[q]
                <= '\u{7f}' by {
                assert(p + q < ident_end(s, p));
                assert(is_ident_char(s[p + q]));
                assert(name[q] == s[p + q]);
            }
            assert(vstd::utf8::is_ascii_chars(name));
            assert(name.len() > 0);
            assert(entries_from(s, i)[0].0 == name);
            assert forall|t: int| 0 <= t < entries_from(s, i).len() implies vstd::utf8::is_ascii_chars(
                #[trigger] entries_from(s, i)[t].0,
            ) && entries_from(s, i)[t].0.len() > 0 by {
                if t >= 1 {
                    assert(entries_from(s, i)[t] == entries_from(s, i + 1)[t - 1]);
                }
            }
        }
    }
}

} // verus!
