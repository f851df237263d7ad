//! Small verified text helpers: splitting a string on spaces and the path
//! arithmetic the override discovery needs. Paths are modeled as plain
//! strings with `/`-separated components.

use vstd::prelude::*;

verus! {

/// The tokens of `s` from position `i` on, given the characters of the
/// pending token read so far: maximal runs of non-space characters.
pub open spec fn split_acc(s: Seq<char>, i: int, cur: Seq<char>) -> Seq<Seq<char>>
    decreases s.len() - i,
{
    if i < 0 || i >= s.len() {
        if cur.len() > 0 {
            seq![cur]
        } else {
            Seq::empty()
        }
    } else if s[i] == ' ' {
        if cur.len() > 0 {
            seq![cur] + split_acc(s, i + 1, Seq::empty())
        } else {
            split_acc(s, i + 1, Seq::empty())
        }
    } else {
        split_acc(s, i + 1, cur.push(s[i]))
    }
}

/// The space-separated tokens of `s`, in order, empty tokens dropped.
pub open spec fn split_spaces(s: Seq<char>) -> Seq<Seq<char>> {
    split_acc(s, 0, Seq::empty())
}

/// Splits `s` into its space-separated tokens.
pub fn split_spaces_exec(s: &str) -> (r: Vec<String>)
    ensures
        r.deep_view() == split_spaces(s@),
{
    let n = s.unicode_len();
    let mut out: Vec<String> = Vec::new();
    let mut start: usize = 0;
    let mut i: usize = 0;
    proof {
        assert(s@.subrange(0, 0) =~= Seq::<char>::empty());
        assert(out.deep_view() =~= Seq::<Seq<char>>::empty());
        assert(Seq::<Seq<char>>::empty() + split_acc(s@, 0, Seq::empty()) =~= split_acc(
            s@,
            0,
            Seq::empty(),
        ));
    }
    while i < n
        invariant
            0 <= start <= i <= n,
            n == s@.len(),
            split_spaces(s@) == out.deep_view() + split_acc(s@, i as int, s@.subrange(start as int, i as int)),
        decreases n - i,
    {
        let c = s.get_char(i);
        let ghost pending = s@.subrange(start as int, i as int);
        if c == ' ' {
            if start < i {
                let ghost pre = out.deep_view();
                let tok = s.substring_char(start, i).to_owned();
                out.push(tok);
                proof {
                    assert(split_acc(s@, i as int, pending) == seq![pending] + split_acc(
                        s@,
                        i + 1,
                        Seq::empty(),
                    ));
                    assert(out.deep_view() =~= pre + seq![pending]);
                    assert((pre + seq![pending]) + split_acc(s@, i + 1, Seq::empty()) =~= pre + (
                    seq![pending] + split_acc(s@, i + 1, Seq::empty())));
                }
            }
            start = i + 1;
            proof {
                assert(s@.subrange(i + 1, i + 1) =~= Seq::<char>::empty());
            }
        } else {
            proof {
                assert(s@.subrange(start as int, i + 1) =~= pending.push(s@[i as int]));
                assert(split_acc(s@, i as int, pending) == split_acc(s@, i + 1, pending.push(s@[i as int])));
            }
        }
        i = i + 1;
    }
    let ghost pending = s@.subrange(start as int, n as int);
    if start < n {
        let ghost pre = out.deep_view();
        let tok = s.substring_char(start, n).to_owned();
        out.push(tok);
        proof {
            assert(split_acc(s@, n as int, pending) == seq![pending]);
            assert(out.deep_view() =~= pre + seq![pending]);
        }
    }
    proof {
        assert(out.deep_view() =~= split_spaces(s@));
    }
    out
}

/// The position right after the last `/` of `s`, or 0 when `s` has none.
pub open spec fn last_slash_end(s: Seq<char>, i: int) -> int
    decreases i,
{
    if i <= 0 {
        0
    } else if s[i - 1] == '/' {
        i
    } else {
        last_slash_end(s, i - 1)
    }
}

/// The directory part of a path: everything before its final `/`, the
/// empty string when the path has no `/`. Total where `Path::parent`
/// would be partial.
pub open spec fn spec_parent_dir(s: Seq<char>) -> Seq<char> {
    let e = last_slash_end(s, s.len() as int);
    if e == 0 {
        Seq::empty()
    } else {
        s.subrange(0, e - 1)
    }
}

/// Returns the directory containing `path`, dropping the final component.
pub fn parent_dir(path: &str) -> (r: String)
    ensures
        r@ == spec_parent_dir(path@),
{
    let n = path.unicode_len();
    let mut i: usize = n;
    while i > 0
        invariant
            0 <= i <= n,
            n == path@.len(),
            last_slash_end(path@, n as int) == last_slash_end(path@, i as int),
        decreases i,
    {
        let c = path.get_char(i - 1);
        if c == '/' {
            let r = path.substring_char(0, i - 1).to_owned();
            return r;
        }
        i = i - 1;
    }
    let r = String::new();
    proof {
        assert(r@ =~= Seq::<char>::empty());
    }
    r
}

/// Joining a directory and a component with a `/`; an empty directory
/// joins to the bare component.
pub open spec fn spec_path_join(dir: Seq<char>, name: Seq<char>) -> Seq<char> {
    if dir.len() == 0 {
        name
    } else {
        dir + seq!['/'] + name
    }
}

/// Joins a directory and one path component.
pub fn path_join(dir: &str, name: &str) -> (r: String)
    ensures
        r@ == spec_path_join(dir@, name@),
{
    if dir.is_empty() {
        name.to_owned()
    } else {
        let mut r = dir.to_owned();
        r.append("/");
        r.append(name);
        proof {
            reveal_strlit("/");
            assert(r@ =~= dir@ + seq!['/'] + name@);
        }
        r
    }
}

} // verus!
