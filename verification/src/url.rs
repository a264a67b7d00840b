use vstd::prelude::*;
use vstd::string::StrSliceExecFns;
use vstd::string::StringExecFns;

verus! {

/// The parts of a path written as text: the runs of characters between
/// slashes, without the empty ones.
///
/// Read from the left, one character at a time: a slash ends the part
/// before it, any other character lengthens the part it follows or, after a
/// slash or at the start, begins a new one.
pub open spec fn path_parts(text: Seq<char>) -> Seq<Seq<char>>
    decreases text.len(),
{
    if text.len() == 0 {
        Seq::empty()
    } else {
        let before = text.drop_last();
        let parts = path_parts(before);
        if text.last() == '/' {
            parts
        } else if before.len() > 0 && before.last() != '/' {
            parts.drop_last().push(parts.last().push(text.last()))
        } else {
            parts.push(seq![text.last()])
        }
    }
}

/// The parts written as text, with a slash between one part and the next.
pub open spec fn joined(parts: Seq<Seq<char>>) -> Seq<char>
    decreases parts.len(),
{
    if parts.len() == 0 {
        Seq::empty()
    } else if parts.len() == 1 {
        parts[0]
    } else {
        joined(parts.drop_last()) + seq!['/'] + parts.last()
    }
}

/// Whether a text can be a part of a path: it is not empty and holds no
/// slash.
pub open spec fn is_part(part: Seq<char>) -> bool {
    part.len() > 0 && !part.contains('/')
}

/// Whether all of `parts` can be parts of a path.
pub open spec fn are_parts(parts: Seq<Seq<char>>) -> bool {
    forall|i: int| 0 <= i < parts.len() ==> is_part(#[trigger] parts[i])
}

/// Every part that is read from a text is a part: none is empty, none
/// holds a slash.
pub proof fn parts_of_text_are_parts(text: Seq<char>)
    ensures
        are_parts(path_parts(text)),
        text.len() > 0 && text.last() != '/' ==> path_parts(text).len() > 0,
    decreases text.len(),
{
    if text.len() > 0 {
        let before = text.drop_last();
        let parts = path_parts(before);
        parts_of_text_are_parts(before);
        if text.last() != '/' && before.len() > 0 && before.last() != '/' {
            let longer = parts.last().push(text.last());
            assert(longer.drop_last() == parts.last());
            assert forall|j: int| 0 <= j < longer.len() implies longer[j] != '/' by {
                if j < parts.last().len() {
                    assert(parts.last().contains(longer[j]));
                }
            }
        }
    }
}

/// A part that follows the start of a text, or a slash, is read as one
/// part more.
pub proof fn part_is_read_whole(prefix: Seq<char>, part: Seq<char>)
    requires
        is_part(part),
        prefix.len() == 0 || prefix.last() == '/',
    ensures
        path_parts(prefix + part) == path_parts(prefix).push(part),
    decreases part.len(),
{
    let text = prefix + part;
    let before = text.drop_last();
    assert(text.last() == part.last());
    assert(part.contains(part.last()));
    if part.len() == 1 {
        assert(before == prefix);
        assert(part == seq![part.last()]);
    } else {
        let shorter = part.drop_last();
        assert(before == prefix + shorter);
        assert forall|j: int| 0 <= j < shorter.len() implies shorter[j] != '/' by {
            assert(part.contains(part[j]));
        }
        assert(before.last() == shorter.last());
        assert(shorter.contains(shorter.last()));
        part_is_read_whole(prefix, shorter);
        assert(path_parts(before).drop_last() == path_parts(prefix));
        assert(shorter.push(part.last()) == part);
    }
}

/// Parts that are written as text and read again are the same parts.
pub proof fn text_reads_back(parts: Seq<Seq<char>>)
    requires
        are_parts(parts),
    ensures
        path_parts(joined(parts)) == parts,
    decreases parts.len(),
{
    if parts.len() == 1 {
        part_is_read_whole(Seq::empty(), parts[0]);
        assert(Seq::<char>::empty() + parts[0] == parts[0]);
        assert(Seq::<Seq<char>>::empty().push(parts[0]) == parts);
    } else if parts.len() > 1 {
        let earlier = parts.drop_last();
        text_reads_back(earlier);
        let prefix = joined(earlier) + seq!['/'];
        assert(prefix.drop_last() == joined(earlier));
        part_is_read_whole(prefix, parts.last());
        assert(earlier.push(parts.last()) == parts);
    }
}

/// The path of a location, read one part at a time.
#[derive(Debug)]
pub struct Url {
    path: Vec<String>,
    next_path_part_index: usize,
}

impl Url {
    /// No part of the path is empty, and none holds a slash.
    #[verifier::type_invariant]
    pub closed spec fn wf(&self) -> bool {
        are_parts(self.path.deep_view())
    }

    /// The parts of the path, first part first.
    pub closed spec fn parts(&self) -> Seq<Seq<char>> {
        self.path.deep_view()
    }

    /// How many parts have been read. It may pass the end of the path only
    /// by staying where it is.
    pub closed spec fn consumed(&self) -> nat {
        self.next_path_part_index as nat
    }

    /// The parts that are still to be read.
    pub open spec fn remaining(&self) -> Seq<Seq<char>> {
        if self.consumed() <= self.parts().len() {
            self.parts().skip(self.consumed() as int)
        } else {
            Seq::empty()
        }
    }

    /// The empty path.
    pub fn new() -> (url: Url)
        ensures
            url.parts() == Seq::<Seq<char>>::empty(),
            url.consumed() == 0,
    {
        Url { path: Vec::new(), next_path_part_index: 0 }
    }

    /// A copy of the path that has read as far as this one.
    pub fn duplicate(&self) -> (copy: Url)
        ensures
            copy.parts() == self.parts(),
            copy.consumed() == self.consumed(),
    {
        proof {
            use_type_invariant(self);
        }
        let mut path: Vec<String> = Vec::new();
        let mut i: usize = 0;
        while i < self.path.len()
            invariant
                i <= self.path.len(),
                path.deep_view() == self.path.deep_view().take(i as int),
            decreases self.path.len() - i,
        {
            let ghost before = path.deep_view();
            path.push(self.path[i].clone());
            assert(path.deep_view() == before.push(self.path[i as int]@));
            assert(self.path.deep_view().take(i + 1) == self.path.deep_view().take(i as int).push(
                self.path.deep_view()[i as int],
            ));
            i += 1;
        }
        assert(self.path.deep_view().take(self.path.len() as int) == self.path.deep_view());
        Url { path, next_path_part_index: self.next_path_part_index }
    }

    /// Reads the next part of the path, if one is left.
    pub fn next_path_part(&mut self) -> (part: Option<&str>)
        ensures
            final(self).parts() == old(self).parts(),
            match part {
                Some(text) => {
                    &&& old(self).consumed() < old(self).parts().len()
                    &&& text@ == old(self).parts()[old(self).consumed() as int]
                    &&& final(self).consumed() == old(self).consumed() + 1
                },
                None => {
                    &&& old(self).consumed() >= old(self).parts().len()
                    &&& final(self).consumed() == old(self).consumed()
                },
            },
    {
        proof {
            use_type_invariant(&*self);
        }
        if self.next_path_part_index < self.path.len() {
            let next_path_part_index = self.next_path_part_index;
            self.next_path_part_index += 1;
            Some(self.path[next_path_part_index].as_str())
        } else {
            None
        }
    }

    /// Reads a path from text. Every text is a path: slashes separate the
    /// parts, and empty parts are left out.
    pub fn from_str(s: &str) -> (url: Result<Url, String>)
        ensures
            url matches Ok(u) && u.parts() == path_parts(s@) && u.consumed() == 0,
    {
        let n = s.unicode_len();
        let mut path: Vec<String> = Vec::new();
        let mut start: usize = 0;
        let mut i: usize = 0;
        while i < n
            invariant
                n == s@.len(),
                start <= i <= n,
                forall|j: int| start <= j < i ==> s@[j] != '/',
                start == 0 || s@[start - 1] == '/',
                path_parts(s@.take(i as int)) == if start < i {
                    path.deep_view().push(s@.subrange(start as int, i as int))
                } else {
                    path.deep_view()
                },
            decreases n - i,
        {
            let c = s.get_char(i);
            proof {
                let text = s@.take(i + 1);
                assert(text.drop_last() == s@.take(i as int));
                assert(text.last() == c);
                if c != '/' && start < i {
                    assert(s@.take(i as int).last() == s@[i - 1]);
                    assert(s@.subrange(start as int, i as int).push(c) == s@.subrange(
                        start as int,
                        i + 1,
                    ));
                    assert(path.deep_view().push(s@.subrange(start as int, i as int)).drop_last()
                        == path.deep_view());
                }
                if c != '/' && start == i {
                    assert(seq![c] == s@.subrange(start as int, i + 1));
                    if i > 0 {
                        assert(s@.take(i as int).last() == s@[i - 1]);
                    }
                }
            }
            if c == '/' {
                if start < i {
                    let part = String::from_str(s.substring_char(start, i));
                    let ghost parts = path.deep_view();
                    path.push(part);
                    assert(path.deep_view() == parts.push(s@.subrange(start as int, i as int)));
                }
                start = i + 1;
            }
            i += 1;
        }
        if start < n {
            let part = String::from_str(s.substring_char(start, n));
            let ghost parts = path.deep_view();
            path.push(part);
            assert(path.deep_view() == parts.push(s@.subrange(start as int, n as int)));
        }
        assert(s@.take(n as int) == s@);
        proof {
            parts_of_text_are_parts(s@);
        }
        Ok(Url { path, next_path_part_index: 0 })
    }

    /// Writes the path as text, with a slash between one part and the next.
    /// The text reads back as the same parts.
    pub fn to_string(&self) -> (text: String)
        ensures
            text@ == joined(self.parts()),
            path_parts(text@) == self.parts(),
    {
        proof {
            use_type_invariant(self);
            text_reads_back(self.parts());
        }
        let mut text = String::new();
        let mut i: usize = 0;
        while i < self.path.len()
            invariant
                i <= self.path.len(),
                text@ == joined(self.path.deep_view().take(i as int)),
            decreases self.path.len() - i,
        {
            proof {
                reveal_strlit("/");
                let parts = self.path.deep_view().take(i + 1);
                assert(parts.drop_last() == self.path.deep_view().take(i as int));
                assert(parts.last() == self.path[i as int]@);
                if i == 0 {
                    assert(parts[0] == self.path[0]@);
                }
                assert("/"@ == seq!['/']);
            }
            if i > 0 {
                text.append("/");
            }
            text.append(self.path[i].as_str());
            i += 1;
        }
        assert(self.path.deep_view().take(self.path.len() as int) == self.path.deep_view());
        text
    }
}

} // verus!
