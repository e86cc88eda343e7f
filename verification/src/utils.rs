//! Texts: the dependencies of a manifest, and places in a source file.

use crate::contract::{strings_view, Dependencies};
use crate::marshalling::join;
use vstd::prelude::*;
use vstd::string::StringExecFns;

verus! {

/// The lines of a manifest that ask `deps` of the crates they name: one line
/// `name = requirement` for each entry, under the heading `[dependencies]`.
pub open spec fn manifest_text(deps: Seq<(Seq<char>, Seq<char>)>) -> Seq<char> {
    "[dependencies]\n"@ + manifest_lines(deps)
}

/// One line `name = requirement` for each entry of `deps`.
pub open spec fn manifest_lines(deps: Seq<(Seq<char>, Seq<char>)>) -> Seq<char>
    decreases deps.len(),
{
    if deps.len() == 0 {
        Seq::empty()
    } else {
        manifest_lines(deps.drop_last()) + deps.last().0 + " = "@ + deps.last().1 + "\n"@
    }
}

/// The dependencies in the words of a manifest.
pub fn dependencies_to_string(deps: &Dependencies) -> (r: String)
    ensures
        r@ == manifest_text(deps@),
{
    let mut r = String::from_str("[dependencies]\n");
    let mut i: usize = 0;
    assert(deps@.take(0) =~= Seq::empty());
    assert("[dependencies]\n"@ + manifest_lines(deps@.take(0)) =~= "[dependencies]\n"@);
    while i < deps.len()
        invariant
            i <= deps@.len(),
            r@ == "[dependencies]\n"@ + manifest_lines(deps@.take(i as int)),
        decreases deps@.len() - i,
    {
        proof {
            let longer = deps@.take(i + 1);
            assert(longer.drop_last() =~= deps@.take(i as int));
            assert(longer.last() == deps@[i as int]);
        }
        let ghost before = r@;
        r.append(deps.name(i).as_str());
        r.append(" = ");
        r.append(deps.spec(i).0.as_str());
        r.append("\n");
        assert(r@ =~= before + deps@[i as int].0 + " = "@ + deps@[i as int].1 + "\n"@);
        assert(r@ =~= "[dependencies]\n"@ + manifest_lines(deps@.take(i + 1)));
        i += 1;
    }
    assert(deps@.take(deps@.len() as int) =~= deps@);
    r
}

/// The index of the first line feed of `s` at or after `from`; the length of
/// `s` where there is none.
pub open spec fn line_end(s: Seq<char>, from: int) -> int
    decreases s.len() - from,
{
    if from >= s.len() {
        s.len() as int
    } else if s[from] == '\n' {
        from
    } else {
        line_end(s, from + 1)
    }
}

/// The line of `s` from `start` to the line feed at `end`, or to the end of
/// `s`: a carriage return before the line feed is no part of it.
pub open spec fn line_between(s: Seq<char>, start: int, end: int) -> Seq<char> {
    if end < s.len() && start < end && s[end - 1] == '\r' {
        s.subrange(start, end - 1)
    } else {
        s.subrange(start, end)
    }
}

/// The lines of `s` from `start` on. Each line ends at a line feed, or at
/// the end of `s`; nothing follows the last line feed.
pub open spec fn lines_from(s: Seq<char>, start: int) -> Seq<Seq<char>>
    decreases s.len() - start,
{
    if start >= s.len() || start < 0 {
        Seq::empty()
    } else {
        proof {
            lemma_line_end(s, start);
        }
        let end = line_end(s, start);
        if end >= s.len() {
            seq![line_between(s, start, end)]
        } else {
            seq![line_between(s, start, end)] + lines_from(s, end + 1)
        }
    }
}

/// The end of a line lies in the text, at or after its start.
pub proof fn lemma_line_end(s: Seq<char>, from: int)
    requires
        0 <= from <= s.len(),
    ensures
        from <= line_end(s, from) <= s.len(),
        line_end(s, from) < s.len() ==> s[line_end(s, from)] == '\n',
        forall|i: int| from <= i < line_end(s, from) ==> s[i] != '\n',
    decreases s.len() - from,
{
    if from < s.len() && s[from] != '\n' {
        lemma_line_end(s, from + 1);
    }
}

/// The lines of a text.
pub fn lines(text: &str) -> (r: Vec<String>)
    ensures
        strings_view(r@) == lines_from(text@, 0),
{
    let n = text.unicode_len();
    let ghost s = text@;
    let mut r: Vec<String> = Vec::new();
    let mut start: usize = 0;
    assert(strings_view(r@) + lines_from(s, 0) =~= lines_from(s, 0));
    while start < n
        invariant
            start <= n,
            n == s.len(),
            s == text@,
            strings_view(r@) + lines_from(s, start as int) == lines_from(s, 0),
        decreases n - start,
    {
        let mut end: usize = start;
        while end < n && text.get_char(end) != '\n'
            invariant
                start <= end <= n,
                n == s.len(),
                s == text@,
                line_end(s, start as int) == line_end(s, end as int),
            decreases n - end,
        {
            end += 1;
        }
        let stop = if end < n && start < end && text.get_char(end - 1) == '\r' {
            end - 1
        } else {
            end
        };
        let line = String::from_str(text.substring_char(start, stop));
        let ghost before = strings_view(r@);
        assert(line@ == line_between(s, start as int, end as int));
        r.push(line);
        let next = if end < n {
            end + 1
        } else {
            end
        };
        proof {
            assert(strings_view(r@) =~= before.push(line_between(s, start as int, end as int)));
            assert(lines_from(s, start as int) =~= seq![line_between(s, start as int, end as int)]
                + lines_from(s, next as int));
            assert(strings_view(r@) + lines_from(s, next as int) =~= before + lines_from(
                s,
                start as int,
            ));
        }
        start = next;
    }
    assert(strings_view(r@) + lines_from(s, start as int) =~= strings_view(r@));
    r
}

/// The two parts in which the lines `lines` are cut at the column `col` of
/// the line `line`, lines being counted from one: the lines before the line
/// with the part of the line before the column, and the rest of the line
/// with the lines from the second line after it on. The lines of a part are
/// joined by line feeds; `None` where `line` is no line of `lines`.
pub open spec fn split_lines_at(lines: Seq<Seq<char>>, line: int, col: int) -> Option<
    (Seq<char>, Seq<char>),
> {
    if 1 <= line <= lines.len() {
        let middle = lines[line - 1];
        let cut = if col < 0 {
            0
        } else if col > middle.len() {
            middle.len() as int
        } else {
            col
        };
        let last = if lines.len() > line {
            join(lines.subrange(line + 1, lines.len() as int), "\n"@)
        } else {
            Seq::empty()
        };
        Some(
            (
                join(lines.subrange(0, line - 1), "\n"@) + middle.subrange(0, cut),
                middle.subrange(cut, middle.len() as int) + last,
            ),
        )
    } else {
        None
    }
}

/// The lines `lines` joined by `sep`.
pub fn join_lines(lines: &[String], sep: &str) -> (r: String)
    ensures
        r@ == join(strings_view(lines@), sep@),
{
    let ghost texts = strings_view(lines@);
    let mut r = String::new();
    let mut i: usize = 0;
    assert(texts.take(0) =~= Seq::<Seq<char>>::empty());
    while i < lines.len()
        invariant
            i <= lines.len(),
            texts == strings_view(lines@),
            r@ == join(texts.take(i as int), sep@),
        decreases lines.len() - i,
    {
        proof {
            let longer = texts.take(i + 1);
            assert(longer.drop_last() =~= texts.take(i as int));
            assert(longer.last() == lines@[i as int]@);
            if i == 0 {
                assert(r@ + lines@[0]@ =~= lines@[0]@);
            }
        }
        if i > 0 {
            r.append(sep);
        }
        r.append(lines[i].as_str());
        i += 1;
    }
    assert(texts.take(lines@.len() as int) =~= texts);
    r
}

/// Cuts the text `text` in two at the column `col` of its line `line`,
/// lines being counted from one and columns in characters from zero.
pub fn split_at_line_col(text: &str, line: usize, col: usize) -> (r: Option<(String, String)>)
    ensures
        match r {
            Some(parts) => split_lines_at(lines_from(text@, 0), line as int, col as int) == Some(
                (parts.0@, parts.1@),
            ),
            None => split_lines_at(lines_from(text@, 0), line as int, col as int).is_none(),
        },
{
    let all = lines(text);
    let ghost lv = strings_view(all@);
    if line < 1 || line > all.len() {
        return None;
    }
    let first = vstd::slice::slice_subrange(all.as_slice(), 0, line - 1);
    assert(strings_view(first@) =~= lv.subrange(0, line - 1));
    let mut before = join_lines(first, "\n");
    let middle = all[line - 1].as_str();
    assert(middle@ == lv[line - 1]);
    let width = middle.unicode_len();
    let cut = if col > width {
        width
    } else {
        col
    };
    let mut after = String::from_str(middle.substring_char(cut, width));
    before.append(middle.substring_char(0, cut));
    if all.len() > line {
        let rest = vstd::slice::slice_subrange(all.as_slice(), line + 1, all.len());
        assert(strings_view(rest@) =~= lv.subrange(line + 1, lv.len() as int));
        after.append(join_lines(rest, "\n").as_str());
    } else {
        assert(after@ + Seq::<char>::empty() =~= after@);
    }
    Some((before, after))
}

/// One step of the path of a definition, as far as its name goes.
#[derive(Debug, PartialEq, Eq)]
pub enum DefPathItem {
    /// A type, a module or a trait of this name.
    TypeNs(String),
    /// A function, a constant or a static of this name.
    ValueNs(String),
    /// A lifetime of this name.
    LifetimeNs(String),
    /// An implementation block.
    Impl,
    /// An import.
    Use,
    /// A constant without a name.
    AnonConst,
    /// A block of foreign items.
    ForeignMod,
    /// Any other step; it has no part in the name of the definition.
    Other,
}

/// The name of a step of a path, where it has a part in the name of the
/// definition.
pub open spec fn step_text(item: DefPathItem) -> Option<Seq<char>> {
    match item {
        DefPathItem::TypeNs(s) => Some(s@),
        DefPathItem::ValueNs(s) => Some(s@),
        DefPathItem::Impl => Some("r#impl"@),
        DefPathItem::Use => Some("r#use"@),
        DefPathItem::AnonConst => Some("r#_"@),
        DefPathItem::LifetimeNs(_) => Some("'lifetime"@),
        DefPathItem::ForeignMod => Some("r#foreign_mod"@),
        DefPathItem::Other => None,
    }
}

/// The names of the first `n` steps of a path, after the name of the crate.
pub open spec fn path_texts(krate: Seq<char>, path: Seq<DefPathItem>, n: int) -> Seq<Seq<char>>
    decreases n,
{
    if n <= 0 {
        seq![krate]
    } else {
        match step_text(path[n - 1]) {
            Some(text) => path_texts(krate, path, n - 1).push(text),
            None => path_texts(krate, path, n - 1),
        }
    }
}

/// What identifies a definition: its crate, and the path to it in the crate.
#[derive(Debug, PartialEq, Eq)]
pub struct DefId {
    pub krate: String,
    pub path: Vec<DefPathItem>,
}

impl DefId {
    /// The full name of the definition: the name of its crate and the names
    /// of the steps of its path, with `::` between them.
    pub fn into_string(&self) -> (r: String)
        ensures
            r@ == join(path_texts(self.krate@, self.path@, self.path@.len() as int), "::"@),
    {
        let mut parts: Vec<String> = Vec::new();
        parts.push(self.krate.clone());
        let mut i: usize = 0;
        assert(strings_view(parts@) =~= path_texts(self.krate@, self.path@, 0));
        while i < self.path.len()
            invariant
                i <= self.path.len(),
                strings_view(parts@) == path_texts(self.krate@, self.path@, i as int),
            decreases self.path.len() - i,
        {
            let ghost before = strings_view(parts@);
            let text = match &self.path[i] {
                DefPathItem::TypeNs(s) => Some(s.clone()),
                DefPathItem::ValueNs(s) => Some(s.clone()),
                DefPathItem::Impl => Some(String::from_str("r#impl")),
                DefPathItem::Use => Some(String::from_str("r#use")),
                DefPathItem::AnonConst => Some(String::from_str("r#_")),
                DefPathItem::LifetimeNs(_) => Some(String::from_str("'lifetime")),
                DefPathItem::ForeignMod => Some(String::from_str("r#foreign_mod")),
                DefPathItem::Other => None,
            };
            match text {
                Some(t) => {
                    parts.push(t);
                    assert(strings_view(parts@) =~= before.push(step_text(self.path@[i as int]).unwrap()));
                },
                None => {},
            }
            i += 1;
        }
        join_lines(parts.as_slice(), "::")
    }
}

/// The example that contracts are written about: the sum of two bytes where
/// it is a byte, and zero where it is not.
pub fn add_or_zero(x: u8, y: u8) -> (r: u8)
    ensures
        r == (if x + y < 256 {
            x + y
        } else {
            0
        }),
{
    if (x as u16) + (y as u16) < 256 {
        x + y
    } else {
        0
    }
}

} // verus!
