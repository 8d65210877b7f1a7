//! Directory paths as sequences of component names.
//!
//! A path is absolute: the empty sequence stands for the filesystem root,
//! `["a", "b"]` for `/a/b`. Evaluators may leave `.`, `..` or empty
//! components in a path; the engine normalizes them away before it decides
//! whether the directory is still confined to the session's root.

use vstd::prelude::*;
use vstd::string::StringExecFns;

verus! {

/// An absolute directory path, held as its ordered component names.
pub struct DirPath {
    pub parts: Vec<String>,
}

impl View for DirPath {
    type V = Seq<Seq<char>>;

    open spec fn view(&self) -> Seq<Seq<char>> {
        self.parts.deep_view()
    }
}

/// A component that may stand in a normalized path: non-empty and neither
/// `.` nor `..`.
pub open spec fn is_plain_part(p: Seq<char>) -> bool {
    p.len() > 0 && p != "."@ && p != ".."@
}

/// A path is normalized when every component is a plain name.
pub open spec fn is_normalized(p: Seq<Seq<char>>) -> bool {
    forall|i: int| 0 <= i < p.len() ==> is_plain_part(#[trigger] p[i])
}

/// Lexical normalization: empty components and `.` vanish, `..` removes the
/// component before it, or nothing when the path is already at the
/// filesystem root.
pub open spec fn norm(p: Seq<Seq<char>>) -> Seq<Seq<char>>
    decreases p.len(),
{
    if p.len() == 0 {
        Seq::empty()
    } else {
        let head = norm(p.drop_last());
        let last = p.last();
        if last.len() == 0 || last == "."@ {
            head
        } else if last == ".."@ {
            if head.len() == 0 {
                head
            } else {
                head.drop_last()
            }
        } else {
            head.push(last)
        }
    }
}

/// Normalization only ever produces plain components.
pub proof fn lemma_norm_normalized(p: Seq<Seq<char>>)
    ensures
        is_normalized(norm(p)),
    decreases p.len(),
{
    if p.len() > 0 {
        lemma_norm_normalized(p.drop_last());
        let head = norm(p.drop_last());
        let last = p.last();
        if last.len() == 0 || last == "."@ {
        } else if last == ".."@ {
            if head.len() > 0 {
                assert(forall|i: int|
                    0 <= i < head.drop_last().len() ==> is_plain_part(#[trigger] head.drop_last()[i]));
            }
        } else {
            assert(forall|i: int|
                0 <= i < head.push(last).len() ==> is_plain_part(#[trigger] head.push(last)[i]));
        }
    }
}

/// The text of `parts` joined below a leading separator: `["a", "b"]`
/// becomes `/a/b`, the empty sequence becomes the empty text.
pub open spec fn joined(parts: Seq<Seq<char>>) -> Seq<char>
    decreases parts.len(),
{
    if parts.len() == 0 {
        Seq::empty()
    } else {
        joined(parts.drop_last()) + "/"@ + parts.last()
    }
}

/// The text of `cwd` shown relative to `root`: the components below the
/// root joined with separators, or `/` at the root itself. A path that does
/// not descend from the root is shown whole.
pub open spec fn rendered_below(root: Seq<Seq<char>>, cwd: Seq<Seq<char>>) -> Seq<char> {
    let rel = if root.is_prefix_of(cwd) {
        cwd.skip(root.len() as int)
    } else {
        cwd
    };
    if rel.len() == 0 {
        "/"@
    } else {
        joined(rel)
    }
}

impl DirPath {
    /// An exact copy of this path.
    pub fn duplicate(&self) -> (r: DirPath)
        ensures
            r@ == self@,
    {
        let mut parts: Vec<String> = Vec::new();
        let mut i: usize = 0;
        while i < self.parts.len()
            invariant
                i <= self.parts@.len(),
                parts@.len() == i,
                forall|j: int| 0 <= j < i ==> parts@[j]@ == self.parts@[j]@,
            decreases self.parts@.len() - i,
        {
            parts.push(self.parts[i].clone());
            i = i + 1;
        }
        let r = DirPath { parts };
        proof {
            assert(r@ =~= self@);
        }
        r
    }

    /// Whether `prefix` is this path or one of its ancestors.
    pub fn starts_with(&self, prefix: &DirPath) -> (r: bool)
        ensures
            r == prefix@.is_prefix_of(self@),
    {
        if prefix.parts.len() > self.parts.len() {
            return false;
        }
        let mut i: usize = 0;
        while i < prefix.parts.len()
            invariant
                i <= prefix.parts@.len() <= self.parts@.len(),
                forall|j: int| 0 <= j < i ==> prefix@[j] == self@[j],
            decreases prefix.parts@.len() - i,
        {
            if !(self.parts[i] == prefix.parts[i]) {
                proof {
                    assert(prefix@[i as int] != self@[i as int]);
                    assert(!(prefix@ =~= self@.subrange(0, prefix@.len() as int)));
                }
                return false;
            }
            i = i + 1;
        }
        proof {
            assert(prefix@ =~= self@.subrange(0, prefix@.len() as int));
        }
        true
    }

    /// The text of this path relative to `root`, as `rendered_below` gives
    /// it: `/sub/dir` below the root, `/` at the root itself.
    pub fn render_below(&self, root: &DirPath) -> (r: String)
        ensures
            r@ == rendered_below(root@, self@),
    {
        let start: usize = if self.starts_with(root) {
            root.parts.len()
        } else {
            0
        };
        proof {
            assert(self@.skip(0) =~= self@);
        }
        if start == self.parts.len() {
            proof {
                assert(self@.skip(start as int) =~= Seq::<Seq<char>>::empty());
            }
            return "/".to_owned();
        }
        let mut text = String::new();
        let mut i: usize = start;
        while i < self.parts.len()
            invariant
                start <= i <= self.parts@.len(),
                text@ == joined(self@.subrange(start as int, i as int)),
            decreases self.parts@.len() - i,
        {
            text.append("/");
            text.append(self.parts[i].as_str());
            proof {
                assert(self@.subrange(start as int, i + 1).drop_last() =~= self@.subrange(
                    start as int,
                    i as int,
                ));
                assert(self@.subrange(start as int, i + 1).last() == self@[i as int]);
            }
            i = i + 1;
        }
        proof {
            assert(self@.subrange(start as int, self.parts@.len() as int) =~= self@.skip(
                start as int,
            ));
        }
        text
    }

    /// The lexically normalized form of this path.
    pub fn normalize(&self) -> (r: DirPath)
        ensures
            r@ == norm(self@),
            is_normalized(r@),
    {
        let dot: String = ".".to_owned();
        let dotdot: String = "..".to_owned();
        let mut parts: Vec<String> = Vec::new();
        let mut i: usize = 0;
        while i < self.parts.len()
            invariant
                i <= self.parts@.len(),
                dot@ == "."@,
                dotdot@ == ".."@,
                parts.deep_view() == norm(self@.take(i as int)),
            decreases self.parts@.len() - i,
        {
            let p = &self.parts[i];
            proof {
                assert(self@.take(i + 1).drop_last() =~= self@.take(i as int));
                assert(self@.take(i + 1).last() == self@[i as int]);
            }
            if p.as_str().is_empty() || *p == dot {
                // the component vanishes
            } else if *p == dotdot {
                if parts.len() > 0 {
                    let ghost before = parts.deep_view();
                    let _ = parts.pop();
                    proof {
                        assert(parts.deep_view() =~= before.drop_last());
                    }
                }
            } else {
                let ghost before = parts.deep_view();
                parts.push(p.clone());
                proof {
                    assert(parts.deep_view() =~= before.push(self@[i as int]));
                }
            }
            i = i + 1;
        }
        proof {
            assert(self@.take(self.parts@.len() as int) =~= self@);
            lemma_norm_normalized(self@);
        }
        DirPath { parts }
    }
}

} // verus!
