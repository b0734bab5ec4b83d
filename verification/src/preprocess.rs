use vstd::prelude::*;

verus! {

/// Whether a character separates words: the characters that Unicode marks
/// as white space.
pub open spec fn is_space(c: char) -> bool {
    let n = c as u32;
    ||| 0x09 <= n <= 0x0d
    ||| n == 0x20
    ||| n == 0x85
    ||| n == 0xa0
    ||| n == 0x1680
    ||| 0x2000 <= n <= 0x200a
    ||| n == 0x2028
    ||| n == 0x2029
    ||| n == 0x202f
    ||| n == 0x205f
    ||| n == 0x3000
}

/// The text that opens an include line.
pub open spec fn directive() -> Seq<char> {
    seq!['/', '/', '!', 'i', 'n', 'c', 'l', 'u', 'd', 'e']
}

/// A line without the carriage return that stood before its line feed.
pub open spec fn strip_cr(line: Seq<char>) -> Seq<char> {
    if line.len() > 0 && line.last() == '\r' {
        line.drop_last()
    } else {
        line
    }
}

/// The one sequence `[cur]`, or none where `cur` is empty.
pub open spec fn unless_empty(cur: Seq<char>) -> Seq<Seq<char>> {
    if cur.len() > 0 {
        seq![cur]
    } else {
        Seq::empty()
    }
}

/// The lines of `s` from position `i` on, where `cur` is the part of the
/// current line that lies before `i`.
pub open spec fn lines_from(s: Seq<char>, i: int, cur: Seq<char>) -> Seq<Seq<char>>
    decreases s.len() - i,
{
    if i >= s.len() || i < 0 {
        unless_empty(cur)
    } else if s[i] == '\n' {
        seq![strip_cr(cur)] + lines_from(s, i + 1, Seq::empty())
    } else {
        lines_from(s, i + 1, cur.push(s[i]))
    }
}

/// The lines of a text: it is cut after every line feed, and a line loses
/// its line feed and a carriage return just before it. A text that ends in a
/// line feed has no empty last line.
pub open spec fn lines(s: Seq<char>) -> Seq<Seq<char>> {
    lines_from(s, 0, Seq::empty())
}

/// The words of `s` from position `i` on, where `cur` is the part of the
/// current word that lies before `i`.
pub open spec fn words_from(s: Seq<char>, i: int, cur: Seq<char>) -> Seq<Seq<char>>
    decreases s.len() - i,
{
    if i >= s.len() || i < 0 {
        unless_empty(cur)
    } else if is_space(s[i]) {
        unless_empty(cur) + words_from(s, i + 1, Seq::empty())
    } else {
        words_from(s, i + 1, cur.push(s[i]))
    }
}

/// The words of a text: its longest runs of characters that are not white space.
pub open spec fn words(s: Seq<char>) -> Seq<Seq<char>> {
    words_from(s, 0, Seq::empty())
}

/// Whether a line is an include line: it opens with `//!include`.
pub open spec fn is_include(line: Seq<char>) -> bool {
    line.len() >= 10 && line.take(10) == directive()
}

/// The names on a line: for an include line the words after its first, for
/// any other line none.
pub open spec fn names_in(line: Seq<char>) -> Seq<Seq<char>> {
    if is_include(line) && words(line.skip(3)).len() > 0 {
        words(line.skip(3)).drop_first()
    } else {
        Seq::empty()
    }
}

/// The pieces of `s` that the ranges select. A range is a pair of positions,
/// the first inside and the second past the end.
pub open spec fn pieces(s: Seq<char>, ranges: Seq<(usize, usize)>) -> Seq<Seq<char>> {
    Seq::new(ranges.len(), |k: int| s.subrange(ranges[k].0 as int, ranges[k].1 as int))
}

/// Every range lies within `low` and `high` and is not reversed.
pub open spec fn ranges_within(ranges: Seq<(usize, usize)>, low: int, high: int) -> bool {
    forall|k: int| 0 <= k < ranges.len() ==> low <= (#[trigger] ranges[k]).0 <= ranges[k].1 <= high
}

/// Whether a character separates words.
pub fn separates(c: char) -> (r: bool)
    ensures
        r == is_space(c),
{
    let n: u32 = c as u32;
    (0x09 <= n && n <= 0x0d) || n == 0x20 || n == 0x85 || n == 0xa0 || n == 0x1680 || (0x2000 <= n
        && n <= 0x200a) || n == 0x2028 || n == 0x2029 || n == 0x202f || n == 0x205f || n
        == 0x3000
}

/// The characters of a text, one by one.
pub fn characters(text: &str) -> (r: Vec<char>)
    ensures
        r@ == text@,
{
    let mut out: Vec<char> = Vec::new();
    for c in it: text.chars()
        invariant
            out@ == it.seq().take(it.index() as int),
            it.seq() == text@,
    {
        proof {
            assert(it.seq().take(it.index() + 1) =~= it.seq().take(it.index() as int).push(c));
        }
        out.push(c);
    }
    proof {
        assert(out@ =~= text@);
    }
    out
}

/// Where the lines of a text lie in it.
pub fn line_ranges(text: &Vec<char>) -> (r: Vec<(usize, usize)>)
    ensures
        pieces(text@, r@) == lines(text@),
        ranges_within(r@, 0, text@.len() as int),
{
    let mut out: Vec<(usize, usize)> = Vec::new();
    let mut start: usize = 0;
    let mut i: usize = 0;
    let n = text.len();
    proof {
        assert(pieces(text@, out@) =~= Seq::<Seq<char>>::empty());
        assert(text@.subrange(0, 0) =~= Seq::<char>::empty());
    }
    while i < n
        invariant
            n == text@.len(),
            start <= i <= n,
            ranges_within(out@, 0, n as int),
            pieces(text@, out@) + lines_from(text@, i as int, text@.subrange(start as int, i as int))
                == lines(text@),
        decreases n - i,
    {
        let ghost cur = text@.subrange(start as int, i as int);
        let ghost before = out@;
        if text[i] == '\n' {
            let end: usize = if start < i && text[i - 1] == '\r' {
                i - 1
            } else {
                i
            };
            out.push((start, end));
            start = i + 1;
            proof {
                assert(strip_cr(cur) =~= text@.subrange(out@.last().0 as int, end as int));
                assert(pieces(text@, out@) =~= pieces(text@, before) + seq![strip_cr(cur)]);
                assert(text@.subrange(i + 1, i + 1) =~= Seq::<char>::empty());
            }
        } else {
            proof {
                assert(cur.push(text@[i as int]) =~= text@.subrange(start as int, i + 1));
            }
        }
        i = i + 1;
    }
    if start < n {
        let ghost before = out@;
        out.push((start, n));
        proof {
            assert(pieces(text@, out@) =~= pieces(text@, before) + seq![
                text@.subrange(start as int, n as int),
            ]);
        }
    } else {
        proof {
            assert(text@.subrange(start as int, n as int) =~= Seq::<char>::empty());
        }
    }
    out
}

/// Where the words of the part of a text between `from` and `to` lie in
/// the text.
pub fn word_ranges(text: &Vec<char>, from: usize, to: usize) -> (r: Vec<(usize, usize)>)
    requires
        from <= to <= text@.len(),
    ensures
        pieces(text@, r@) == words(text@.subrange(from as int, to as int)),
        ranges_within(r@, from as int, to as int),
{
    let ghost part = text@.subrange(from as int, to as int);
    let mut out: Vec<(usize, usize)> = Vec::new();
    let mut start: usize = from;
    let mut i: usize = from;
    proof {
        assert(pieces(text@, out@) =~= Seq::<Seq<char>>::empty());
        assert(part.subrange(0, 0) =~= Seq::<char>::empty());
    }
    while i < to
        invariant
            from <= start <= i <= to <= text@.len(),
            part == text@.subrange(from as int, to as int),
            ranges_within(out@, from as int, to as int),
            pieces(text@, out@) + words_from(part, i - from, part.subrange(start - from, i - from))
                == words(part),
        decreases to - i,
    {
        let ghost cur = part.subrange(start - from, i - from);
        let ghost before = out@;
        assert(part[i - from] == text@[i as int]);
        if separates(text[i]) {
            if start < i {
                out.push((start, i));
                proof {
                    assert(cur =~= text@.subrange(start as int, i as int));
                    assert(pieces(text@, out@) =~= pieces(text@, before) + seq![cur]);
                }
            }
            start = i + 1;
            proof {
                assert(part.subrange(i + 1 - from, i + 1 - from) =~= Seq::<char>::empty());
            }
        } else {
            proof {
                assert(cur.push(part[i - from]) =~= part.subrange(start - from, i + 1 - from));
            }
        }
        i = i + 1;
    }
    if start < to {
        let ghost before = out@;
        out.push((start, to));
        proof {
            assert(part.subrange(start - from, to - from) =~= text@.subrange(
                start as int,
                to as int,
            ));
            assert(pieces(text@, out@) =~= pieces(text@, before) + seq![
                text@.subrange(start as int, to as int),
            ]);
        }
    } else {
        proof {
            assert(part.subrange(start - from, to - from) =~= Seq::<char>::empty());
        }
    }
    out
}

/// Whether the part of a text between `from` and `to` is an include line.
pub fn opens_include(text: &Vec<char>, from: usize, to: usize) -> (r: bool)
    requires
        from <= to <= text@.len(),
    ensures
        r == is_include(text@.subrange(from as int, to as int)),
{
    let ghost line = text@.subrange(from as int, to as int);
    if to - from < 10 {
        return false;
    }
    let r = text[from] == '/' && text[from + 1] == '/' && text[from + 2] == '!' && text[from + 3]
        == 'i' && text[from + 4] == 'n' && text[from + 5] == 'c' && text[from + 6] == 'l'
        && text[from + 7] == 'u' && text[from + 8] == 'd' && text[from + 9] == 'e';
    proof {
        let d = directive();
        let head = line.take(10);
        assert(forall|k: int| 0 <= k < 10 ==> head[k] == text@[from + k]);
        if r {
            assert(head =~= d);
        } else {
            assert(head[0] == '/' && head[1] == '/' && head[2] == '!' && head[3] == 'i' && head[4]
                == 'n' && head[5] == 'c' && head[6] == 'l' && head[7] == 'u' && head[8] == 'd'
                && head[9] == 'e' ==> false);
            assert(d[0] == '/' && d[1] == '/' && d[2] == '!' && d[3] == 'i' && d[4] == 'n' && d[5]
                == 'c' && d[6] == 'l' && d[7] == 'u' && d[8] == 'd' && d[9] == 'e');
        }
    }
    r
}

/// A shader module after its include lines were replaced.
pub struct ProcessedShader {
    code: String,
    includes: Vec<String>,
}

/// A module named on an include line, already processed.
pub struct Included {
    /// Where the module was found.
    pub path: String,
    /// What it came to.
    pub shader: ProcessedShader,
}

/// Builds a shader module from its source and the modules it includes.
pub struct ShaderBuilder {
    src: String,
}

/// Why a module could not be built.
#[derive(Clone, Copy, Debug, PartialEq, Eq, Structural)]
pub enum Error {
    /// The modules handed in are not one for each name on the include lines.
    IncludeMismatch,
}

/// What is known of an included module: its path, its code and the paths
/// that it included in turn.
pub ghost struct Unit {
    pub path: Seq<char>,
    pub code: Seq<char>,
    pub includes: Seq<Seq<char>>,
}

/// The texts of some strings.
pub open spec fn texts(v: Seq<String>) -> Seq<Seq<char>> {
    Seq::new(v.len(), |i: int| v[i]@)
}

/// What is known of some included modules.
pub open spec fn units(v: Seq<Included>) -> Seq<Unit> {
    Seq::new(v.len(), |i: int| v[i].unit())
}

/// The number of names on the first `j` lines.
pub open spec fn wanted(lines: Seq<Seq<char>>, j: int) -> int
    decreases j,
{
    if j <= 0 {
        0
    } else {
        wanted(lines, j - 1) + names_in(lines[j - 1]).len()
    }
}

/// The names on the first `j` lines, in order.
pub open spec fn names_upto(lines: Seq<Seq<char>>, j: int) -> Seq<Seq<char>>
    decreases j,
{
    if j <= 0 {
        Seq::empty()
    } else {
        names_upto(lines, j - 1) + names_in(lines[j - 1])
    }
}

/// The code of the modules `a` up to `b`, one after the other.
pub open spec fn joined_code(kids: Seq<Unit>, a: int, b: int) -> Seq<char>
    decreases b - a,
{
    if b <= a {
        Seq::empty()
    } else {
        joined_code(kids, a, b - 1) + kids[b - 1].code
    }
}

/// The paths of the modules `a` up to `b`, each followed by the paths that
/// it included itself.
pub open spec fn joined_paths(kids: Seq<Unit>, a: int, b: int) -> Seq<Seq<char>>
    decreases b - a,
{
    if b <= a {
        Seq::empty()
    } else {
        joined_paths(kids, a, b - 1) + seq![kids[b - 1].path] + kids[b - 1].includes
    }
}

/// The code that the first `j` lines come to: a line that is no include
/// line stands as it is, closed by a line feed; an include line is replaced
/// by the code of the modules that it names.
pub open spec fn code_upto(lines: Seq<Seq<char>>, kids: Seq<Unit>, j: int) -> Seq<char>
    decreases j,
{
    if j <= 0 {
        Seq::empty()
    } else {
        let line = lines[j - 1];
        let k = wanted(lines, j - 1);
        code_upto(lines, kids, j - 1) + if is_include(line) {
            joined_code(kids, k, k + names_in(line).len())
        } else {
            line.push('\n')
        }
    }
}

/// The paths that the first `j` lines include, directly or through the
/// modules that they name, in the order in which they are met.
pub open spec fn paths_upto(lines: Seq<Seq<char>>, kids: Seq<Unit>, j: int) -> Seq<Seq<char>>
    decreases j,
{
    if j <= 0 {
        Seq::empty()
    } else {
        let line = lines[j - 1];
        let k = wanted(lines, j - 1);
        paths_upto(lines, kids, j - 1) + joined_paths(kids, k, k + names_in(line).len())
    }
}

/// The number of names never goes down from line to line.
pub proof fn lemma_wanted_grows(lines: Seq<Seq<char>>, j: int, m: int)
    requires
        0 <= j <= m,
    ensures
        0 <= wanted(lines, j) <= wanted(lines, m),
    decreases m,
{
    if j < m {
        lemma_wanted_grows(lines, j, m - 1);
    } else if j > 0 {
        lemma_wanted_grows(lines, j - 1, j - 1);
    }
}

impl Included {
    /// What is known of the module.
    pub open spec fn unit(&self) -> Unit {
        Unit { path: self.path@, code: self.shader.code_view(), includes: self.shader.includes_view() }
    }
}

impl ProcessedShader {
    /// The code of the module.
    pub closed spec fn code_view(&self) -> Seq<char> {
        self.code@
    }

    /// The paths that the module included, directly or not.
    pub closed spec fn includes_view(&self) -> Seq<Seq<char>> {
        texts(self.includes@)
    }

    /// The code of the module.
    pub fn wgsl(self) -> (r: String)
        ensures
            r@ == self.code_view(),
    {
        self.code
    }

    /// The paths that the module included, directly or not, in the order in
    /// which they were met.
    pub fn includes(&self) -> (r: &Vec<String>)
        ensures
            texts(r@) == self.includes_view(),
    {
        &self.includes
    }
}

/// The names on the include lines of a source, in order: the modules that
/// have to be processed before the source can be built.
pub fn include_names(source: &str) -> (r: Vec<String>)
    ensures
        texts(r@) == names_upto(lines(source@), lines(source@).len() as int),
{
    let text = characters(source);
    let rows = line_ranges(&text);
    let ghost all = lines(source@);
    let mut out: Vec<String> = Vec::new();
    let mut j: usize = 0;
    proof {
        assert(texts(out@) =~= names_upto(all, 0));
    }
    while j < rows.len()
        invariant
            j <= rows@.len(),
            text@ == source@,
            all == lines(source@),
            pieces(text@, rows@) == all,
            ranges_within(rows@, 0, text@.len() as int),
            texts(out@) == names_upto(all, j as int),
        decreases rows@.len() - j,
    {
        let (a, b) = rows[j];
        assert(all[j as int] == text@.subrange(a as int, b as int));
        let ghost line = all[j as int];
        if opens_include(&text, a, b) {
            let found = word_ranges(&text, a + 3, b);
            proof {
                assert(line.skip(3) =~= text@.subrange(a + 3, b as int));
            }
            let mut t: usize = 1;
            let ghost before = out@;
            proof {
                assert(texts(before) + names_in(line).take(0) =~= texts(before));
            }
            while t < found.len()
                invariant
                    1 <= t,
                    t <= found@.len() || found@.len() == 0,
                    texts(before) == names_upto(all, j as int),
                    line == all[j as int],
                    j < rows@.len(),
                    rows@.len() == all.len(),
                    text@ == source@,
                    ranges_within(found@, a + 3, b as int),
                    b <= text@.len(),
                    pieces(text@, found@) == words(line.skip(3)),
                    is_include(line),
                    found@.len() > 0 ==> texts(out@) == texts(before) + names_in(line).take(t - 1),
                    found@.len() == 0 ==> out@ == before,
                decreases found@.len() - t,
            {
                let (c, d) = found[t];
                let name = source.substring_char(c, d).to_owned();
                let ghost prior = out@;
                out.push(name);
                proof {
                    assert(pieces(text@, found@)[t as int] == text@.subrange(c as int, d as int));
                    assert(names_in(line)[t - 1] == name@);
                    assert(names_in(line).take(t as int) =~= names_in(line).take(t - 1).push(
                        name@,
                    ));
                    assert(texts(out@) =~= texts(prior).push(name@));
                }
                t = t + 1;
            }
            proof {
                if found@.len() > 0 {
                    assert(t == found@.len());
                    assert(names_in(line).len() == found@.len() - 1);
                    assert(names_in(line).take(found@.len() - 1) =~= names_in(line));
                } else {
                    assert(names_in(line) =~= Seq::<Seq<char>>::empty());
                    assert(texts(before) + names_in(line) =~= texts(before));
                }
            }
        } else {
            proof {
                assert(texts(out@) + names_in(line) =~= texts(out@));
            }
        }
        j = j + 1;
    }
    out
}

impl ShaderBuilder {
    /// The path of the module that is built.
    pub closed spec fn path_view(&self) -> Seq<char> {
        self.src@
    }

    /// A builder for the module at `src`.
    pub fn new(src: &str) -> (r: Self)
        ensures
            r.path_view() == src@,
    {
        ShaderBuilder { src: src.to_owned() }
    }

    /// The path of the module that is built.
    pub fn path(&self) -> (r: &String)
        ensures
            r@ == self.path_view(),
    {
        &self.src
    }

    /// Builds the module from its `source` and from the modules named on
    /// its include lines, already processed and in the order of their
    /// names. Every other line is kept and closed by a line feed; an include
    /// line gives way to the code of the modules it names. Fails exactly
    /// when `included` does not hold one module for each name.
    pub fn build(self, source: &str, included: &Vec<Included>) -> (r: Result<
        ProcessedShader,
        Error,
    >)
        ensures
            ({
                let all = lines(source@);
                let kids = units(included@);
                &&& r is Ok <==> wanted(all, all.len() as int) == included@.len()
                &&& r is Ok ==> r->Ok_0.code_view() == code_upto(all, kids, all.len() as int)
                    && r->Ok_0.includes_view() == paths_upto(all, kids, all.len() as int)
                &&& r is Err ==> r->Err_0 == Error::IncludeMismatch
            }),
    {
        let text = characters(source);
        let rows = line_ranges(&text);
        let ghost all = lines(source@);
        let ghost kids = units(included@);
        let mut code = String::new();
        let mut paths: Vec<String> = Vec::new();
        let mut k: usize = 0;
        let mut j: usize = 0;
        proof {
            assert(texts(paths@) =~= paths_upto(all, kids, 0));
            assert(code@ =~= code_upto(all, kids, 0));
        }
        while j < rows.len()
            invariant
                j <= rows@.len(),
                text@ == source@,
                all == lines(source@),
                kids == units(included@),
                pieces(text@, rows@) == all,
                ranges_within(rows@, 0, text@.len() as int),
                k == wanted(all, j as int),
                k <= included@.len(),
                code@ == code_upto(all, kids, j as int),
                texts(paths@) == paths_upto(all, kids, j as int),
            decreases rows@.len() - j,
        {
            let (a, b) = rows[j];
            assert(all[j as int] == text@.subrange(a as int, b as int));
            let ghost line = all[j as int];
            if opens_include(&text, a, b) {
                let found = word_ranges(&text, a + 3, b);
                proof {
                    assert(line.skip(3) =~= text@.subrange(a + 3, b as int));
                }
                let n: usize = if found.len() > 0 {
                    found.len() - 1
                } else {
                    0
                };
                assert(n == names_in(line).len());
                if n > included.len() - k {
                    proof {
                        lemma_wanted_grows(all, j + 1, all.len() as int);
                    }
                    return Err(Error::IncludeMismatch);
                }
                let ghost code_before = code@;
                let ghost paths_before = texts(paths@);
                let mut t: usize = 0;
                proof {
                    assert(code_before + joined_code(kids, k as int, k as int) =~= code_before);
                    assert(paths_before + joined_paths(kids, k as int, k as int) =~= paths_before);
                }
                while t < n
                    invariant
                        t <= n,
                        k + n <= included@.len() <= usize::MAX,
                        kids == units(included@),
                        code@ == code_before + joined_code(kids, k as int, k + t),
                        texts(paths@) == paths_before + joined_paths(kids, k as int, k + t),
                    decreases n - t,
                {
                    let child = &included[k + t];
                    assert(kids[k + t] == child.unit());
                    code.append(child.shader.code.as_str());
                    let ghost grown = texts(paths@);
                    paths.push(child.path.clone());
                    proof {
                        assert(texts(paths@) =~= grown.push(child.path@));
                    }
                    let mut u: usize = 0;
                    let ghost inner = child.shader.includes_view();
                    proof {
                        assert(inner.take(0) =~= Seq::<Seq<char>>::empty());
                        assert(grown.push(child.path@) + inner.take(0) =~= grown.push(child.path@));
                    }
                    while u < child.shader.includes.len()
                        invariant
                            u <= child.shader.includes@.len(),
                            inner == texts(child.shader.includes@),
                            texts(paths@) == grown.push(child.path@) + inner.take(u as int),
                        decreases child.shader.includes@.len() - u,
                    {
                        let ghost so_far = texts(paths@);
                        paths.push(child.shader.includes[u].clone());
                        proof {
                            assert(texts(paths@) =~= so_far.push(inner[u as int]));
                            assert(inner.take(u + 1) =~= inner.take(u as int).push(inner[u as int]));
                            assert(so_far.push(inner[u as int]) =~= grown.push(child.path@)
                                + inner.take(u + 1));
                        }
                        u = u + 1;
                    }
                    proof {
                        assert(inner.take(u as int) =~= inner);
                        assert(code_before + joined_code(kids, k as int, k + t) + child.unit().code
                            =~= code_before + joined_code(kids, k as int, k + t + 1));
                        assert(paths_before + joined_paths(kids, k as int, k + t) + seq![
                            child.path@,
                        ] + inner =~= paths_before + joined_paths(kids, k as int, k + t + 1));
                        assert(grown.push(child.path@) + inner =~= grown + seq![child.path@]
                            + inner);
                    }
                    t = t + 1;
                }
                k = k + n;
            } else {
                let ghost code_before = code@;
                code.append(source.substring_char(a, b));
                proof {
                    reveal_strlit("\n");
                }
                code.append("\n");
                proof {
                    assert("\n"@ =~= seq!['\n']);
                    assert(code@ =~= code_before + line.push('\n'));
                    assert(texts(paths@) + joined_paths(kids, k as int, k as int) =~= texts(paths@));
                }
            }
            j = j + 1;
        }
        if k != included.len() {
            return Err(Error::IncludeMismatch);
        }
        Ok(ProcessedShader { code, includes: paths })
    }
}

} // verus!
