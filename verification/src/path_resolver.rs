//! From a project directory to the name of the plugin it builds and to the
//! address under which the host loads the built artifact.
//!
//! A directory is a string whose components are separated by `/`. Empty
//! components and `.` name nothing; `..` names the parent.

use vstd::prelude::*;

verus! {

/// Where the last component of `p` begins: just behind the last `/`, or at 0.
pub open spec fn last_segment_start(p: Seq<char>) -> int
    decreases p.len(),
{
    if p.len() == 0 || p.last() == '/' {
        p.len() as int
    } else {
        last_segment_start(p.drop_last())
    }
}

/// The last component of `p`: what follows the last `/`.
pub open spec fn last_segment(p: Seq<char>) -> Seq<char> {
    p.subrange(last_segment_start(p), p.len() as int)
}

/// The name of the directory `p`: its last component that is neither empty
/// nor `.`, unless there is none or it is `..`.
pub open spec fn target_name(p: Seq<char>) -> Option<Seq<char>>
    decreases p.len(),
{
    if p.len() == 0 {
        None
    } else if p.last() == '/' || last_segment(p) == seq!['.'] {
        target_name(p.drop_last())
    } else if last_segment(p) == seq!['.', '.'] {
        None
    } else {
        Some(last_segment(p))
    }
}

/// What is written between a directory and a component appended to it.
pub open spec fn joint(p: Seq<char>) -> Seq<char> {
    if p.len() > 0 && p.last() != '/' {
        seq!['/']
    } else {
        Seq::<char>::empty()
    }
}

/// The build output of the plugin `name` under the directory `root`.
pub open spec fn artifact_path(root: Seq<char>, name: Seq<char>) -> Seq<char> {
    root + joint(root) + "target/wasm32-wasi/debug/"@ + name + ".wasm"@
}

/// The address of the artifact that a build in `root` produces, where `root`
/// has a name.
pub open spec fn artifact_locator(root: Seq<char>) -> Option<Seq<char>> {
    match target_name(root) {
        Some(name) => Some("file:"@ + artifact_path(root, name)),
        None => None,
    }
}

/// `start` is where the last component of `p` begins as soon as no `/`
/// follows it and one stands before it.
pub proof fn lemma_last_segment_start(p: Seq<char>, start: int)
    requires
        0 <= start <= p.len(),
        start == 0 || p[start - 1] == '/',
        forall|i: int| start <= i < p.len() ==> p[i] != '/',
    ensures
        last_segment_start(p) == start,
    decreases p.len(),
{
    if p.len() == 0 || p.last() == '/' {
    } else {
        lemma_last_segment_start(p.drop_last(), start);
    }
}

/// The last component begins inside the path, and holds no `/`.
pub proof fn lemma_last_segment_bounds(p: Seq<char>)
    ensures
        0 <= last_segment_start(p) <= p.len(),
        last_segment_start(p) == 0 || p[last_segment_start(p) - 1] == '/',
        forall|i: int| last_segment_start(p) <= i < p.len() ==> p[i] != '/',
    decreases p.len(),
{
    if p.len() == 0 || p.last() == '/' {
    } else {
        let q = p.drop_last();
        lemma_last_segment_bounds(q);
        assert forall|i: int| last_segment_start(p) <= i < p.len() implies p[i] != '/' by {
            if i < q.len() {
                assert(q[i] == p[i]);
            }
        }
    }
}

/// A name is a component: it is not empty, holds no `/`, and is neither `.`
/// nor `..`.
pub proof fn lemma_target_name_is_component(p: Seq<char>)
    requires
        target_name(p) is Some,
    ensures
        target_name(p)->0.len() > 0,
        forall|i: int| 0 <= i < target_name(p)->0.len() ==> target_name(p)->0[i] != '/',
        target_name(p)->0 != seq!['.'],
        target_name(p)->0 != seq!['.', '.'],
    decreases p.len(),
{
    lemma_last_segment_bounds(p);
    if p.last() == '/' || last_segment(p) == seq!['.'] {
        lemma_target_name_is_component(p.drop_last());
    }
}

/// The artifact of a directory with a name lies in the build output directory
/// under that directory and is called after it; a directory without a name has
/// no artifact.
pub proof fn lemma_locator_shape(root: Seq<char>)
    ensures
        target_name(root) is None <==> artifact_locator(root) is None,
        match (target_name(root), artifact_locator(root)) {
            (Some(name), Some(locator)) => {
                let file = "target/wasm32-wasi/debug/"@ + name + ".wasm"@;
                &&& ("file:"@ + root).is_prefix_of(locator)
                &&& file.is_suffix_of(locator)
                &&& locator.len() > file.len()
                &&& locator[locator.len() - file.len() - 1] == '/'
            },
            _ => true,
        },
{
    if let Some(name) = target_name(root) {
        let file = "target/wasm32-wasi/debug/"@ + name + ".wasm"@;
        let dir = "file:"@ + root + joint(root);
        let locator = artifact_locator(root)->0;
        assert(root.len() > 0);
        assert(locator =~= dir + file);
        assert(locator.subrange(0, ("file:"@ + root).len() as int) =~= "file:"@ + root);
        assert(locator.subrange(locator.len() - file.len(), locator.len() as int) =~= file);
        assert(dir.last() == '/');
        assert(locator[dir.len() - 1] == dir.last());
    }
}

/// The bounds of the name of `p` within `p`, if it has one.
fn name_bounds(p: &Vec<char>) -> (bounds: Option<(usize, usize)>)
    ensures
        match bounds {
            Some((start, end)) => start < end <= p.len() && target_name(p@) == Some(
                p@.subrange(start as int, end as int),
            ),
            None => target_name(p@) is None,
        },
{
    let mut end: usize = p.len();
    assert(p@.subrange(0, end as int) =~= p@);
    loop
        invariant
            end <= p.len(),
            target_name(p@) == target_name(p@.subrange(0, end as int)),
        decreases end,
    {
        let ghost head = p@.subrange(0, end as int);
        if end == 0 {
            return None;
        }
        let mut start: usize = end;
        while start > 0 && p[start - 1] != '/'
            invariant
                start <= end <= p.len(),
                forall|i: int| start <= i < end ==> p@[i] != '/',
            decreases start,
        {
            start = start - 1;
        }
        proof {
            lemma_last_segment_start(head, start as int);
            assert(last_segment(head) =~= p@.subrange(start as int, end as int));
        }
        let ghost segment = last_segment(head);
        let skipped = end - start == 0 || (end - start == 1 && p[start] == '.');
        proof {
            if end - start == 1 && p[start as int] == '.' {
                assert(segment =~= seq!['.']);
            }
            if segment == seq!['.'] {
                assert(segment.len() == 1 && segment[0] == '.');
            }
        }
        if skipped {
            proof {
                let rest = head.drop_last();
                assert(target_name(head) == target_name(rest));
                if end - start == 1 {
                    assert(rest =~= p@.subrange(0, start as int));
                    if start > 0 {
                        assert(rest.last() == '/');
                        assert(rest.drop_last() =~= p@.subrange(0, start - 1));
                        assert(target_name(rest) == target_name(rest.drop_last()));
                    }
                } else {
                    assert(head.last() == '/');
                    assert(rest =~= p@.subrange(0, start - 1));
                }
            }
            if start == 0 {
                return None;
            }
            end = start - 1;
        } else {
            let parent = end - start == 2 && p[start] == '.' && p[start + 1] == '.';
            proof {
                if parent {
                    assert(segment =~= seq!['.', '.']);
                }
                if segment == seq!['.', '.'] {
                    assert(segment.len() == 2 && segment[0] == '.' && segment[1] == '.');
                }
            }
            assert(head.last() != '/');
            if parent {
                return None;
            }
            return Some((start, end));
        }
    }
}

/// The name of the plugin that the directory `cwd` builds: its last
/// component, where that is an ordinary name.
pub fn plugin_name(cwd: &str) -> (name: Option<String>)
    ensures
        match name {
            Some(n) => target_name(cwd@) == Some(n@),
            None => target_name(cwd@) is None,
        },
{
    let chars = chars_of(cwd);
    match name_bounds(&chars) {
        Some((start, end)) => Some(cwd.substring_char(start, end).to_owned()),
        None => None,
    }
}

/// The address under which the host loads what a build in `cwd` produces.
pub fn plugin_url(cwd: &str) -> (url: Option<String>)
    ensures
        match url {
            Some(u) => artifact_locator(cwd@) == Some(u@),
            None => artifact_locator(cwd@) is None,
        },
{
    let chars = chars_of(cwd);
    match name_bounds(&chars) {
        Some((start, end)) => {
            let mut url = String::from_str("file:");
            url.append(cwd);
            if chars[chars.len() - 1] != '/' {
                proof {
                    reveal_strlit("/");
                    assert("/"@ =~= seq!['/']);
                }
                url.append("/");
            }
            assert(url@ =~= "file:"@ + cwd@ + joint(cwd@));
            url.append("target/wasm32-wasi/debug/");
            url.append(cwd.substring_char(start, end));
            url.append(".wasm");
            assert(url@ =~= "file:"@ + artifact_path(
                cwd@,
                cwd@.subrange(start as int, end as int),
            ));
            Some(url)
        },
        None => None,
    }
}

/// The characters of `s`, one by one.
pub fn chars_of(s: &str) -> (chars: Vec<char>)
    ensures
        chars@ == s@,
{
    let mut chars: Vec<char> = Vec::new();
    for c in it: s.chars()
        invariant
            it.seq() == s@,
            chars@ == s@.take(it.index() as int),
    {
        chars.push(c);
        assert(s@.take(it.index() + 1) =~= s@.take(it.index() as int).push(c));
    }
    assert(s@.take(s@.len() as int) =~= s@);
    chars
}

} // verus!
