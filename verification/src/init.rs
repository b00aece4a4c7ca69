//! `gitree init` — the decisions of a fresh bare-clone setup.

use vstd::prelude::*;

use crate::text::{
    chars_of, copy_str, ends_with, is_ws, lines, lines_acc, lines_of, push_str, same_text, strip_cr,
    string_of, trim, trim_end, trim_start, trim_str,
};

verus! {

/// Options for `gitree init`.
#[derive(Debug, Clone)]
pub struct InitOptions {
    /// The remote URL to clone from.
    pub url: String,
    /// The wrapper directory name (defaults to repo name from URL).
    pub name: Option<String>,
}

/// `s` without trailing `.git` suffixes (`str::trim_end_matches(".git")`).
pub open spec fn trim_git_suffixes(s: Seq<char>) -> Seq<char>
    decreases s.len(),
{
    if s.len() >= 4 && ends_with(s, ".git"@) {
        trim_git_suffixes(s.subrange(0, s.len() - 4))
    } else {
        s
    }
}

/// The part of `s` after its last `/` or `:` (all of `s` if it has none).
pub open spec fn last_segment(s: Seq<char>) -> Seq<char>
    decreases s.len(),
{
    if s.len() == 0 {
        s
    } else if s.last() == '/' || s.last() == ':' {
        Seq::empty()
    } else {
        last_segment(s.drop_last()).push(s.last())
    }
}

/// The wrapper directory name derived from a git URL: the last path
/// segment, after trailing slashes and `.git` suffixes are removed.
pub open spec fn derived_name(url: Seq<char>) -> Seq<char> {
    last_segment(trim_git_suffixes(crate::repo::trim_trailing_slashes(url)))
}

/// Derives a wrapper directory name from a git URL.
pub fn derive_name(url: &str) -> (n: String)
    ensures
        n@ == derived_name(url@),
{
    let t = crate::repo::trim_slashes(url);
    let v = chars_of(t.as_str());
    let mut end: usize = v.len();
    assert(v@.subrange(0, v@.len() as int) == v@);
    while end >= 4 && v[end - 4] == '.' && v[end - 3] == 'g' && v[end - 2] == 'i' && v[end - 1] == 't'
        invariant
            end <= v@.len(),
            trim_git_suffixes(v@.subrange(0, end as int)) == trim_git_suffixes(t@),
            v@ == t@,
        decreases end,
    {
        proof {
            reveal_strlit(".git");
            let s = v@.subrange(0, end as int);
            assert(s.subrange(s.len() - 4, s.len() as int) =~= ".git"@);
            assert(s.subrange(0, s.len() - 4) == v@.subrange(0, end - 4));
        }
        end = end - 4;
    }
    proof {
        reveal_strlit(".git");
        let s = v@.subrange(0, end as int);
        if s.len() >= 4 && ends_with(s, ".git"@) {
            assert(s[s.len() - 4] == s.subrange(s.len() - 4, s.len() as int)[0]);
            assert(s[s.len() - 3] == s.subrange(s.len() - 4, s.len() as int)[1]);
            assert(s[s.len() - 2] == s.subrange(s.len() - 4, s.len() as int)[2]);
            assert(s[s.len() - 1] == s.subrange(s.len() - 4, s.len() as int)[3]);
        }
    }
    let mut start: usize = end;
    while start > 0 && v[start - 1] != '/' && v[start - 1] != ':'
        invariant
            start <= end <= v@.len(),
            last_segment(v@.subrange(0, end as int)) == last_segment(
                v@.subrange(0, start as int),
            ) + v@.subrange(start as int, end as int),
        decreases start,
    {
        proof {
            let s = v@.subrange(0, start as int);
            assert(s.drop_last() == v@.subrange(0, start - 1));
            assert(v@.subrange(start - 1, end as int) == seq![s.last()] + v@.subrange(
                start as int,
                end as int,
            ));
        }
        start = start - 1;
    }
    proof {
        let s = v@.subrange(0, start as int);
        assert(last_segment(s) =~= Seq::<char>::empty());
    }
    string_of(&v, start, end)
}

/// The wrapper directory name `init` uses: the given name, or the one
/// derived from the URL.
pub fn wrapper_name(opts: &InitOptions) -> (n: String)
    ensures
        n@ == match opts.name {
            Some(name) => name@,
            None => derived_name(opts.url@),
        },
{
    match &opts.name {
        Some(name) => copy_str(name.as_str()),
        None => derive_name(opts.url.as_str()),
    }
}

/// Some line of `content`, trimmed, is `entry`.
pub open spec fn has_entry_line(content: Seq<char>, entry: Seq<char>) -> bool {
    exists|i: int| 0 <= i < lines(content).len() && #[trigger] trim(lines(content)[i]) == entry
}

/// The `.gitignore` content after making sure `entry` is listed: `None`
/// when a line already holds it, otherwise the content with `entry` and a
/// newline appended, after a newline if the content does not end in one.
pub open spec fn gitignore_with_entry(content: Seq<char>, entry: Seq<char>) -> Option<Seq<char>> {
    if has_entry_line(content, entry) {
        None
    } else {
        Some(
            content + (if content.len() > 0 && content.last() != '\n' {
                "\n"@
            } else {
                Seq::empty()
            }) + entry + "\n"@,
        )
    }
}

/// The new `.gitignore` content that lists `entry`, or `None` when the
/// current `content` (empty for a missing file) already lists it.
pub fn ensure_gitignore_entry(content: &str, entry: &str) -> (r: Option<String>)
    ensures
        match r {
            Some(c) => gitignore_with_entry(content@, entry@) == Some(c@),
            None => gitignore_with_entry(content@, entry@) is None,
        },
{
    let ls = lines_of(content);
    let mut i: usize = 0;
    while i < ls.len()
        invariant
            i <= ls@.len(),
            crate::text::views(ls@) == lines(content@),
            forall|k: int| 0 <= k < i ==> trim(lines(content@)[k]) != entry@,
        decreases ls.len() - i,
    {
        let t = trim_str(ls[i].as_str());
        assert(lines(content@)[i as int] == ls@[i as int]@);
        if same_text(t.as_str(), entry) {
            return None;
        }
        i = i + 1;
    }
    let mut c = copy_str(content);
    let v = chars_of(content);
    if v.len() > 0 && v[v.len() - 1] != '\n' {
        push_str(&mut c, "\n");
    }
    push_str(&mut c, entry);
    push_str(&mut c, "\n");
    Some(c)
}


proof fn lemma_lines_acc_split(x: Seq<char>, y: Seq<char>, cur: Seq<char>)
    requires
        x.len() > 0,
        x.last() == '\n',
    ensures
        lines_acc(x + y, cur) == lines_acc(x, cur) + lines_acc(y, Seq::empty()),
    decreases x.len(),
{
    let xy = x + y;
    assert(xy[0] == x[0]);
    assert(xy.drop_first() =~= x.drop_first() + y);
    if x[0] == '\n' {
        if x.len() == 1 {
            assert(x.drop_first() + y =~= y);
            assert(lines_acc(x.drop_first(), Seq::empty()) == Seq::<Seq<char>>::empty());
            assert(seq![strip_cr(cur)] + Seq::<Seq<char>>::empty() =~= seq![strip_cr(cur)]);
        } else {
            lemma_lines_acc_split(x.drop_first(), y, Seq::empty());
            assert(seq![strip_cr(cur)] + (lines_acc(x.drop_first(), Seq::empty()) + lines_acc(
                y,
                Seq::empty(),
            )) =~= seq![strip_cr(cur)] + lines_acc(x.drop_first(), Seq::empty()) + lines_acc(
                y,
                Seq::empty(),
            ));
        }
    } else {
        lemma_lines_acc_split(x.drop_first(), y, cur.push(x[0]));
    }
}

proof fn lemma_lines_acc_last(e: Seq<char>, cur: Seq<char>)
    requires
        forall|i: int| 0 <= i < e.len() ==> e[i] != '\n',
    ensures
        lines_acc(e + "\n"@, cur) == seq![strip_cr(cur + e)],
    decreases e.len(),
{
    reveal_strlit("\n");
    let w = e + "\n"@;
    if e.len() == 0 {
        assert(w =~= "\n"@);
        assert(w[0] == '\n');
        assert(w.drop_first() =~= Seq::<char>::empty());
        assert(cur + e =~= cur);
        assert(lines_acc(Seq::<char>::empty(), Seq::empty()) == Seq::<Seq<char>>::empty());
        assert(lines_acc(w, cur) == seq![strip_cr(cur)] + lines_acc(w.drop_first(), Seq::empty()));
        assert(seq![strip_cr(cur)] + Seq::<Seq<char>>::empty() =~= seq![strip_cr(cur)]);
    } else {
        assert(w[0] == e[0]);
        assert(e[0] != '\n');
        assert(w.drop_first() =~= e.drop_first() + "\n"@);
        assert(lines_acc(w, cur) == lines_acc(w.drop_first(), cur.push(e[0])));
        lemma_lines_acc_last(e.drop_first(), cur.push(e[0]));
        assert(cur.push(e[0]) + e.drop_first() =~= cur + e);
    }
}

proof fn lemma_trim_start_len(s: Seq<char>)
    ensures
        trim_start(s).len() <= s.len(),
    decreases s.len(),
{
    if s.len() > 0 && is_ws(s[0]) {
        lemma_trim_start_len(s.drop_first());
    }
}

proof fn lemma_trim_end_len(s: Seq<char>)
    ensures
        trim_end(s).len() <= s.len(),
        s.len() > 0 && is_ws(s.last()) ==> trim_end(s).len() < s.len(),
    decreases s.len(),
{
    if s.len() > 0 && is_ws(s.last()) {
        lemma_trim_end_len(s.drop_last());
    }
}

/// Making sure an entry is listed is idempotent: once the entry has been
/// added, the `.gitignore` lists it, and a second call leaves it as it is.
/// The entry is one line, with no surrounding whitespace.
pub proof fn lemma_gitignore_entry_idempotent(content: Seq<char>, entry: Seq<char>)
    requires
        trim(entry) == entry,
        forall|i: int| 0 <= i < entry.len() ==> entry[i] != '\n',
    ensures
        gitignore_with_entry(content, entry) matches Some(c2) ==> has_entry_line(c2, entry)
            && gitignore_with_entry(c2, entry) is None,
{
    reveal_strlit("\n");
    if !has_entry_line(content, entry) {
        let sep: Seq<char> = if content.len() > 0 && content.last() != '\n' {
            "\n"@
        } else {
            Seq::empty()
        };
        let p = content + sep;
        let c2 = content + sep + entry + "\n"@;
        assert(c2 =~= p + (entry + "\n"@));
        lemma_lines_acc_last(entry, Seq::empty());
        assert(Seq::<char>::empty() + entry =~= entry);
        if entry.len() > 0 && entry.last() == '\r' {
            lemma_trim_start_len(entry);
            lemma_trim_end_len(trim_start(entry));
            lemma_trim_end_len(entry);
            if trim_start(entry) == entry {
                assert(is_ws(entry.last()));
            }
            assert(false);
        }
        assert(strip_cr(entry) == entry);
        let ls = lines(c2);
        if p.len() == 0 {
            assert(p + (entry + "\n"@) =~= entry + "\n"@);
            assert(ls == seq![entry]);
            assert(trim(ls[0]) == entry);
        } else {
            assert(p.last() == '\n');
            lemma_lines_acc_split(p, entry + "\n"@, Seq::empty());
            assert(ls == lines(p) + seq![entry]);
            assert(ls[lines(p).len() as int] == entry);
            assert(trim(ls[lines(p).len() as int]) == entry);
        }
        assert(has_entry_line(c2, entry));
    }
}

} // verus!
