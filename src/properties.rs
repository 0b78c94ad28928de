use vstd::prelude::*;
use vstd::string::StrSliceExecFns;

verus! {

/// One line of a properties file: a comment (`None`) or a key and its value.
pub type Line = Option<(Seq<char>, Seq<char>)>;

/// The comment that stands before each pair of keys that carry one value.
pub const COMPAT_MSG: &'static str = "# The following two values are identical; prior is deprecated and kept for gversion compatability";

pub open spec fn pair(key: &str, value: Seq<char>) -> Line {
    Some((key@, value))
}

/// The text of a line: the comment, or `key=value`.
pub open spec fn line_text(l: Line) -> Seq<char> {
    match l {
        None => COMPAT_MSG@,
        Some((k, v)) => k + "="@ + v,
    }
}

pub open spec fn opt_line(key: &str, value: Option<Seq<char>>) -> Seq<Line> {
    match value {
        Some(v) => seq![pair(key, v)],
        None => Seq::empty(),
    }
}

pub open spec fn dirty_digit(dirty: bool) -> Seq<char> {
    if dirty { "1"@ } else { "0"@ }
}

pub open spec fn dirty_word(dirty: bool) -> Seq<char> {
    if dirty { "true"@ } else { "false"@ }
}

/// The lines of a properties file, in order. In compatibility mode the
/// commit date stands under `git_date` and `commit_date`, and the dirty flag
/// under `dirty` and `has_uncommited_changes`; otherwise only the second of
/// each pair is written. The comment precedes the dates and the dirty flag.
pub open spec fn layout(
    sha: Seq<char>,
    commit: Option<Seq<char>>,
    build: Option<Seq<char>>,
    dirty: bool,
    branch: Option<Seq<char>>,
    compat: bool,
) -> Seq<Line> {
    seq![pair("git_sha", sha)] + match commit {
        Some(t) => seq![None] + (if compat {
            seq![pair("git_date", t)]
        } else {
            Seq::empty()
        }) + seq![pair("commit_date", t)],
        None => Seq::empty(),
    } + opt_line("build_date", build) + seq![None] + (if compat {
        seq![pair("dirty", dirty_digit(dirty))]
    } else {
        Seq::empty()
    }) + seq![pair("has_uncommited_changes", dirty_word(dirty))] + opt_line("branch_name", branch)
}

pub open spec fn texts(ls: Seq<Line>) -> Seq<Seq<char>> {
    ls.map_values(|l: Line| line_text(l))
}

pub open spec fn views(v: Seq<String>) -> Seq<Seq<char>> {
    v.map_values(|s: String| s@)
}

/// Whether `i` is the position of the first `=` in `l`.
pub open spec fn is_first_eq(l: Seq<char>, i: int) -> bool {
    &&& 0 <= i < l.len()
    &&& l[i] == '='
    &&& forall|j: int| 0 <= j < i ==> l[j] != '='
}

/// How a line of a properties file reads: a line that starts with `#` is a
/// comment; otherwise the key runs up to the first `=` and the value is the
/// rest. A line with no `=` holds no entry.
pub open spec fn parse_line_spec(l: Seq<char>) -> Line {
    if l.len() > 0 && l[0] == '#' {
        None
    } else if exists|i: int| is_first_eq(l, i) {
        let i = choose|i: int| is_first_eq(l, i);
        Some((l.subrange(0, i), l.subrange(i + 1, l.len() as int)))
    } else {
        None
    }
}

/// A key that reads back as itself: not empty, no `=`, no leading `#`.
pub open spec fn plain_key(k: Seq<char>) -> bool {
    &&& k.len() > 0
    &&& k[0] != '#'
    &&& forall|j: int| 0 <= j < k.len() ==> k[j] != '='
}

/// Relies on `String::push_str`, which appends `t` to `s`.
#[verifier::external_body]
fn append(s: &mut String, t: &str)
    ensures
        final(s)@ == old(s)@ + t@,
{
    s.push_str(t)
}

/// The text `key=value`.
pub fn entry_line(key: &str, value: &str) -> (r: String)
    ensures
        r@ == key@ + "="@ + value@,
{
    let mut s = key.to_owned();
    append(&mut s, "=");
    append(&mut s, value);
    s
}

/// Reads one line of a properties file.
pub fn parse_line(line: &str) -> (r: Option<(String, String)>)
    ensures
        r matches Some((k, v)) ==> parse_line_spec(line@) == Some((k@, v@)),
        r is None ==> parse_line_spec(line@) is None,
{
    let n = line.unicode_len();
    if n > 0 && line.get_char(0) == '#' {
        return None;
    }
    let mut i: usize = 0;
    while i < n
        invariant
            n == line@.len(),
            !(n > 0 && line@[0] == '#'),
            i <= n,
            forall|j: int| 0 <= j < i ==> line@[j] != '=',
        decreases n - i,
    {
        if line.get_char(i) == '=' {
            assert(is_first_eq(line@, i as int));
            let key = line.substring_char(0, i).to_owned();
            let value = line.substring_char(i + 1, n).to_owned();
            proof {
                let c = choose|c: int| is_first_eq(line@, c);
                assert(c == i as int) by {
                    if c < i {
                    } else if c > i {
                        assert(line@[i as int] == '=');
                    }
                }
            }
            return Some((key, value));
        }
        i = i + 1;
    }
    assert(!exists|c: int| is_first_eq(line@, c));
    None
}

/// Reads each line of a properties file; comments and lines without `=`
/// give `None`.
pub fn parse_lines(lines: &Vec<String>) -> (r: Vec<Option<(String, String)>>)
    ensures
        r@.len() == lines@.len(),
        forall|i: int|
            0 <= i < lines@.len() ==> match #[trigger] r@[i] {
                Some((k, v)) => parse_line_spec(lines@[i]@) == Some((k@, v@)),
                None => parse_line_spec(lines@[i]@) is None,
            },
{
    let mut r: Vec<Option<(String, String)>> = Vec::new();
    let mut i: usize = 0;
    while i < lines.len()
        invariant
            i <= lines@.len(),
            r@.len() == i,
            forall|j: int|
                0 <= j < i ==> match #[trigger] r@[j] {
                    Some((k, v)) => parse_line_spec(lines@[j]@) == Some((k@, v@)),
                    None => parse_line_spec(lines@[j]@) is None,
                },
        decreases lines@.len() - i,
    {
        r.push(parse_line(lines[i].as_str()));
        i = i + 1;
    }
    r
}

pub open spec fn opt_view(o: Option<&str>) -> Option<Seq<char>> {
    match o {
        Some(t) => Some(t@),
        None => None,
    }
}

/// Appends `line` to `out`, as the text of `l`.
fn push_line(out: &mut Vec<String>, line: String, Ghost(ls): Ghost<Seq<Line>>, Ghost(l): Ghost<Line>)
    requires
        views(old(out)@) == texts(ls),
        line@ == line_text(l),
    ensures
        views(final(out)@) == texts(ls.push(l)),
{
    let ghost before = out@;
    out.push(line);
    assert(views(out@) =~= texts(ls.push(l))) by {
        assert(views(before).len() == texts(ls).len());
        assert forall|i: int| 0 <= i < views(before).len() implies views(out@)[i] == texts(
            ls.push(l),
        )[i] by {
            assert(out@[i] == before[i]);
            assert(views(before)[i] == texts(ls)[i]);
        }
    }
}

/// The lines of a properties file for the given values, in the order that
/// `layout` gives.
pub fn render_lines(
    sha: &str,
    commit: Option<&str>,
    build: Option<&str>,
    dirty: bool,
    branch: Option<&str>,
    compat: bool,
) -> (r: Vec<String>)
    ensures
        views(r@) == texts(
            layout(sha@, opt_view(commit), opt_view(build), dirty, opt_view(branch), compat),
        ),
{
    let ghost ls: Seq<Line> = Seq::empty();
    let mut out: Vec<String> = Vec::new();
    assert(views(out@) =~= texts(ls));
    push_line(&mut out, entry_line("git_sha", sha), Ghost(ls), Ghost(pair("git_sha", sha@)));
    proof { ls = ls.push(pair("git_sha", sha@)); }
    let ghost part1 = ls;
    if let Some(t) = commit {
        push_line(&mut out, COMPAT_MSG.to_owned(), Ghost(ls), Ghost(None));
        proof { ls = ls.push(None); }
        if compat {
            push_line(&mut out, entry_line("git_date", t), Ghost(ls), Ghost(pair("git_date", t@)));
            proof { ls = ls.push(pair("git_date", t@)); }
        }
        push_line(&mut out, entry_line("commit_date", t), Ghost(ls), Ghost(pair("commit_date", t@)));
        proof { ls = ls.push(pair("commit_date", t@)); }
    }
    let ghost part2 = ls;
    if let Some(b) = build {
        push_line(&mut out, entry_line("build_date", b), Ghost(ls), Ghost(pair("build_date", b@)));
        proof { ls = ls.push(pair("build_date", b@)); }
    }
    let ghost part3 = ls;
    push_line(&mut out, COMPAT_MSG.to_owned(), Ghost(ls), Ghost(None));
    proof { ls = ls.push(None); }
    if compat {
        let digit = if dirty { "1" } else { "0" };
        push_line(&mut out, entry_line("dirty", digit), Ghost(ls), Ghost(pair("dirty", dirty_digit(dirty))));
        proof { ls = ls.push(pair("dirty", dirty_digit(dirty))); }
    }
    let word = if dirty { "true" } else { "false" };
    push_line(
        &mut out,
        entry_line("has_uncommited_changes", word),
        Ghost(ls),
        Ghost(pair("has_uncommited_changes", dirty_word(dirty))),
    );
    proof { ls = ls.push(pair("has_uncommited_changes", dirty_word(dirty))); }
    let ghost part4 = ls;
    if let Some(n) = branch {
        push_line(&mut out, entry_line("branch_name", n), Ghost(ls), Ghost(pair("branch_name", n@)));
        proof { ls = ls.push(pair("branch_name", n@)); }
    }
    assert(ls =~= layout(sha@, opt_view(commit), opt_view(build), dirty, opt_view(branch), compat));
    out
}

/// An entry whose key is plain reads back as that key and value, whatever
/// the value holds.
pub proof fn lemma_entry_round_trip(k: Seq<char>, v: Seq<char>)
    requires
        plain_key(k),
    ensures
        parse_line_spec(k + "="@ + v) == Some((k, v)),
{
    reveal_strlit("=");
    let l = k + "="@ + v;
    let n = k.len() as int;
    assert(l[n] == '=');
    assert forall|j: int| 0 <= j < n implies l[j] != '=' by {
        assert(l[j] == k[j]);
    }
    assert(is_first_eq(l, n));
    let c = choose|c: int| is_first_eq(l, c);
    assert(c == n) by {
        if c < n {
            assert(l[c] == k[c]);
        }
    }
    assert(l[0] == k[0]);
    assert(l.subrange(0, n) =~= k);
    assert(l.subrange(n + 1, l.len() as int) =~= v);
}

proof fn lemma_keys_plain()
    ensures
        plain_key("git_sha"@),
        plain_key("git_date"@),
        plain_key("commit_date"@),
        plain_key("build_date"@),
        plain_key("dirty"@),
        plain_key("has_uncommited_changes"@),
        plain_key("branch_name"@),
        COMPAT_MSG@.len() > 0 && COMPAT_MSG@[0] == '#',
{
    reveal_strlit("git_sha");
    reveal_strlit("git_date");
    reveal_strlit("commit_date");
    reveal_strlit("build_date");
    reveal_strlit("dirty");
    reveal_strlit("has_uncommited_changes");
    reveal_strlit("branch_name");
    reveal_strlit("# The following two values are identical; prior is deprecated and kept for gversion compatability");
}

/// Writing a properties file and reading each line back recovers exactly
/// what was written: the comments read as no entry, and every entry as its
/// own key and value, in order. So each value present is found under its key
/// (both keys of a pair in compatibility mode), and each absent one under none.
pub proof fn lemma_properties_round_trip(
    sha: Seq<char>,
    commit: Option<Seq<char>>,
    build: Option<Seq<char>>,
    dirty: bool,
    branch: Option<Seq<char>>,
    compat: bool,
)
    ensures
        texts(layout(sha, commit, build, dirty, branch, compat)).map_values(
            |t: Seq<char>| parse_line_spec(t),
        ) == layout(sha, commit, build, dirty, branch, compat),
{
    let ls = layout(sha, commit, build, dirty, branch, compat);
    lemma_keys_plain();
    assert forall|i: int| 0 <= i < ls.len() implies parse_line_spec(line_text(ls[i])) == ls[i] by {
        match ls[i] {
            None => {},
            Some((k, v)) => {
                assert(plain_key(k));
                lemma_entry_round_trip(k, v);
            },
        }
    }
    assert(texts(ls).map_values(|t: Seq<char>| parse_line_spec(t)) =~= ls);
}

/// The text of a file whose lines are `ls`: each line followed by a newline.
pub open spec fn join_lines(ls: Seq<Seq<char>>) -> Seq<char>
    decreases ls.len(),
{
    if ls.len() == 0 {
        Seq::empty()
    } else {
        join_lines(ls.drop_last()) + ls.last() + seq!['\n']
    }
}

pub open spec fn no_newline(s: Seq<char>) -> bool {
    forall|j: int| 0 <= j < s.len() ==> s[j] != '\n'
}

pub open spec fn all_no_newline(ls: Seq<Seq<char>>) -> bool {
    forall|i: int| 0 <= i < ls.len() ==> no_newline(#[trigger] ls[i])
}

/// `read` are the lines of `text`: none holds a newline, and joined they give
/// the text back, with a newline added where the last line had none.
pub open spec fn lines_of(text: Seq<char>, read: Seq<Seq<char>>) -> bool {
    &&& all_no_newline(read)
    &&& join_lines(read) == if text.len() == 0 || text.last() == '\n' {
        text
    } else {
        text.push('\n')
    }
}

proof fn lemma_join_push(ls: Seq<Seq<char>>, x: Seq<char>)
    ensures
        join_lines(ls.push(x)) == join_lines(ls) + x + seq!['\n'],
{
    assert(ls.push(x).drop_last() =~= ls);
}

/// A text has one reading as lines without newlines.
proof fn lemma_join_unique(a: Seq<Seq<char>>, b: Seq<Seq<char>>)
    requires
        all_no_newline(a),
        all_no_newline(b),
        join_lines(a) == join_lines(b),
    ensures
        a == b,
    decreases a.len(),
{
    if a.len() == 0 || b.len() == 0 {
        if a.len() > 0 {
            assert(join_lines(a).len() > 0);
        }
        if b.len() > 0 {
            assert(join_lines(b).len() > 0);
        }
        assert(a =~= b);
    } else {
        let t = join_lines(a);
        let l = t.len() as int;
        let (pa, x) = (a.drop_last(), a.last());
        let (pb, y) = (b.drop_last(), b.last());
        let p = join_lines(pa).len() as int;
        let q = join_lines(pb).len() as int;
        assert(t == join_lines(pa) + x + seq!['\n']);
        assert(t == join_lines(pb) + y + seq!['\n']);
        assert(no_newline(a[a.len() - 1]));
        assert(no_newline(b[b.len() - 1]));
        if p < q {
            assert(pb.len() > 0);
            assert(join_lines(pb) == join_lines(pb.drop_last()) + pb.last() + seq!['\n']);
            assert(t[q - 1] == '\n');
            assert(t[q - 1] == x[q - 1 - p]);
        } else if q < p {
            assert(pa.len() > 0);
            assert(join_lines(pa) == join_lines(pa.drop_last()) + pa.last() + seq!['\n']);
            assert(t[p - 1] == '\n');
            assert(t[p - 1] == y[p - 1 - q]);
        }
        assert(x =~= t.subrange(p, l - 1));
        assert(y =~= t.subrange(q, l - 1));
        assert(join_lines(pa) =~= t.subrange(0, p));
        assert(join_lines(pb) =~= t.subrange(0, q));
        assert forall|i: int| 0 <= i < pa.len() implies no_newline(#[trigger] pa[i]) by {
            assert(pa[i] == a[i]);
        }
        assert forall|i: int| 0 <= i < pb.len() implies no_newline(#[trigger] pb[i]) by {
            assert(pb[i] == b[i]);
        }
        lemma_join_unique(pa, pb);
        assert(a =~= pa.push(x));
        assert(b =~= pb.push(y));
    }
}

/// The text of a file with `lines`, each followed by a newline.
pub fn join_text(lines: &Vec<String>) -> (r: String)
    ensures
        r@ == join_lines(views(lines@)),
{
    let mut r = String::new();
    let mut i: usize = 0;
    proof {
        reveal_strlit("\n");
        assert(views(lines@).subrange(0, 0) =~= Seq::<Seq<char>>::empty());
    }
    while i < lines.len()
        invariant
            i <= lines@.len(),
            r@ == join_lines(views(lines@).subrange(0, i as int)),
        decreases lines@.len() - i,
    {
        append(&mut r, lines[i].as_str());
        append(&mut r, "\n");
        proof {
            reveal_strlit("\n");
            let vs = views(lines@);
            lemma_join_push(vs.subrange(0, i as int), vs[i as int]);
            assert(vs.subrange(0, i as int).push(vs[i as int]) =~= vs.subrange(0, i + 1));
        }
        i = i + 1;
    }
    assert(views(lines@).subrange(0, lines@.len() as int) =~= views(lines@));
    r
}

/// The lines of a file's text, without their newlines; a last line without
/// a newline counts too.
pub fn split_text(text: &str) -> (r: Vec<String>)
    ensures
        lines_of(text@, views(r@)),
{
    let n = text.unicode_len();
    let mut r: Vec<String> = Vec::new();
    let mut start: usize = 0;
    let mut i: usize = 0;
    assert(views(r@) =~= Seq::<Seq<char>>::empty());
    assert(text@.subrange(0, 0) =~= Seq::<char>::empty());
    while i < n
        invariant
            n == text@.len(),
            start <= i <= n,
            all_no_newline(views(r@)),
            join_lines(views(r@)) == text@.subrange(0, start as int),
            forall|j: int| start <= j < i ==> text@[j] != '\n',
            start == 0 || text@[start - 1] == '\n',
        decreases n - i,
    {
        if text.get_char(i) == '\n' {
            let line = text.substring_char(start, i).to_owned();
            let ghost before = r@;
            r.push(line);
            proof {
                assert(views(r@) =~= views(before).push(line@));
                lemma_join_push(views(before), line@);
                assert(text@.subrange(0, i + 1) =~= text@.subrange(0, start as int) + line@ + seq!['\n']);
                assert forall|k: int| 0 <= k < views(r@).len() implies no_newline(#[trigger] views(r@)[k]) by {
                    if k < before.len() {
                        assert(views(r@)[k] == views(before)[k]);
                    }
                }
            }
            start = i + 1;
        }
        i = i + 1;
    }
    if start < n {
        let line = text.substring_char(start, n).to_owned();
        let ghost before = r@;
        r.push(line);
        proof {
            assert(views(r@) =~= views(before).push(line@));
            lemma_join_push(views(before), line@);
            assert(text@ =~= text@.subrange(0, start as int) + line@);
            assert(text@[n - 1] != '\n');
            assert(join_lines(views(r@)) =~= text@.push('\n'));
            assert forall|k: int| 0 <= k < views(r@).len() implies no_newline(#[trigger] views(r@)[k]) by {
                if k < before.len() {
                    assert(views(r@)[k] == views(before)[k]);
                }
            }
        }
    } else {
        assert(text@.subrange(0, start as int) =~= text@);
        assert(n == 0 || text@.last() == '\n');
    }
    r
}

/// Reads a properties file: each line as `parse_line` reads it.
pub fn parse_properties(text: &str) -> (r: Vec<Option<(String, String)>>)
    ensures
        exists|read: Seq<Seq<char>>|
            lines_of(text@, read) && r@.len() == read.len() && forall|i: int|
                0 <= i < read.len() ==> match #[trigger] r@[i] {
                    Some((k, v)) => parse_line_spec(read[i]) == Some((k@, v@)),
                    None => parse_line_spec(read[i]) is None,
                },
{
    let lines = split_text(text);
    let r = parse_lines(&lines);
    assert(forall|i: int| 0 <= i < lines@.len() ==> views(lines@)[i] == lines@[i]@);
    r
}

pub open spec fn opt_no_newline(o: Option<Seq<char>>) -> bool {
    match o {
        Some(t) => no_newline(t),
        None => true,
    }
}

/// Writing a properties file and reading it back recovers exactly what was
/// written, where no value holds a newline: the text splits into the lines
/// written, the comments read as no entry, and every entry as its own key and
/// value, in order. So each value present is found under its key (both keys
/// of a pair in compatibility mode), and each absent one under none.
pub proof fn lemma_properties_file_round_trip(
    sha: Seq<char>,
    commit: Option<Seq<char>>,
    build: Option<Seq<char>>,
    dirty: bool,
    branch: Option<Seq<char>>,
    compat: bool,
    read: Seq<Seq<char>>,
)
    requires
        no_newline(sha),
        opt_no_newline(commit),
        opt_no_newline(build),
        opt_no_newline(branch),
        lines_of(join_lines(texts(layout(sha, commit, build, dirty, branch, compat))), read),
    ensures
        read == texts(layout(sha, commit, build, dirty, branch, compat)),
        read.map_values(|t: Seq<char>| parse_line_spec(t)) == layout(
            sha,
            commit,
            build,
            dirty,
            branch,
            compat,
        ),
{
    let ls = layout(sha, commit, build, dirty, branch, compat);
    let ts = texts(ls);
    reveal_strlit("=");
    reveal_strlit("0");
    reveal_strlit("1");
    reveal_strlit("true");
    reveal_strlit("false");
    reveal_strlit("git_sha");
    reveal_strlit("git_date");
    reveal_strlit("commit_date");
    reveal_strlit("build_date");
    reveal_strlit("dirty");
    reveal_strlit("has_uncommited_changes");
    reveal_strlit("branch_name");
    reveal_strlit("# The following two values are identical; prior is deprecated and kept for gversion compatability");
    assert forall|i: int| 0 <= i < ts.len() implies no_newline(#[trigger] ts[i]) by {
        match ls[i] {
            None => {},
            Some((k, v)) => {
                assert(no_newline(k));
                assert(no_newline(v));
                let t = k + "="@ + v;
                assert forall|j: int| 0 <= j < t.len() implies t[j] != '\n' by {
                    if j < k.len() {
                        assert(t[j] == k[j]);
                    } else if j > k.len() {
                        assert(t[j] == v[j - k.len() - 1]);
                    }
                }
            },
        }
    }
    assert(ts.len() > 0);
    assert(join_lines(ts) == join_lines(ts.drop_last()) + ts.last() + seq!['\n']);
    assert(join_lines(ts).last() == '\n');
    lemma_join_unique(read, ts);
    lemma_properties_round_trip(sha, commit, build, dirty, branch, compat);
}

} // verus!
