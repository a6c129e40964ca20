//! A plain model of an HTTP header block: named byte values, in order,
//! with more than one value allowed per name.
//!
//! The map keeps entries in insertion order.  `insert` drops every value
//! a name already has and adds the new one at the end; `append` only adds.
//! The first value of a name is the one `get` answers with, as the wire
//! parsing below relies on.

use vstd::prelude::*;
use vstd::slice::slice_to_vec;
use vstd::string::StringSliceAdditionalSpecFns;

verus! {

/// One header: a name and an opaque byte value.
pub type HeaderSeq = Seq<(Seq<char>, Seq<u8>)>;

/// The first value under a name, scanning from the front.
pub open spec fn spec_first_value(s: HeaderSeq, name: Seq<char>) -> Option<Seq<u8>>
    decreases s.len(),
{
    if s.len() == 0 {
        None
    } else if s.first().0 == name {
        Some(s.first().1)
    } else {
        spec_first_value(s.drop_first(), name)
    }
}

/// Whether some entry carries a name.
pub open spec fn spec_has_name(s: HeaderSeq, name: Seq<char>) -> bool {
    spec_first_value(s, name) is Some
}

/// The entries left once every value under a name is dropped.
pub open spec fn spec_remove_name(s: HeaderSeq, name: Seq<char>) -> HeaderSeq
    decreases s.len(),
{
    if s.len() == 0 {
        s
    } else {
        let rest = spec_remove_name(s.drop_last(), name);
        if s.last().0 == name {
            rest
        } else {
            rest.push(s.last())
        }
    }
}

/// How many distinct names a block holds: a name counts once, at its
/// first appearance.
pub open spec fn spec_distinct_names(s: HeaderSeq) -> int
    decreases s.len(),
{
    if s.len() == 0 {
        0
    } else if exists|j: int| 0 <= j < s.len() - 1 && s[j].0 == s.last().0 {
        spec_distinct_names(s.drop_last())
    } else {
        spec_distinct_names(s.drop_last()) + 1
    }
}

/// What `insert` leaves behind.
pub open spec fn spec_insert(s: HeaderSeq, name: Seq<char>, value: Seq<u8>) -> HeaderSeq {
    spec_remove_name(s, name).push((name, value))
}

/// Every value under a name, in order.
pub open spec fn spec_all_values(s: HeaderSeq, name: Seq<char>) -> Seq<Seq<u8>>
    decreases s.len(),
{
    if s.len() == 0 {
        Seq::empty()
    } else {
        let rest = spec_all_values(s.drop_last(), name);
        if s.last().0 == name {
            rest.push(s.last().1)
        } else {
            rest
        }
    }
}

pub proof fn lemma_first_value_skip(s: HeaderSeq, name: Seq<char>, i: int)
    requires
        0 <= i <= s.len(),
        forall|j: int| 0 <= j < i ==> s[j].0 != name,
    ensures
        spec_first_value(s, name) == spec_first_value(s.skip(i), name),
    decreases i,
{
    if i > 0 {
        assert(s.first().0 != name);
        lemma_first_value_skip(s.drop_first(), name, i - 1);
        assert(s.drop_first().skip(i - 1) =~= s.skip(i));
    } else {
        assert(s.skip(0) =~= s);
    }
}

/// No entry carries the name exactly when scanning finds nothing.
pub proof fn lemma_first_value_none(s: HeaderSeq, name: Seq<char>)
    ensures
        (spec_first_value(s, name) is None) <==> (forall|j: int|
            0 <= j < s.len() ==> s[j].0 != name),
    decreases s.len(),
{
    if s.len() > 0 {
        lemma_first_value_none(s.drop_first(), name);
        assert(forall|j: int|
            0 <= j < s.drop_first().len() ==> #[trigger] s.drop_first()[j] == s[j + 1]);
        if spec_first_value(s, name) is None {
            assert(s.first().0 != name);
            assert forall|j: int| 0 <= j < s.len() implies s[j].0 != name by {
                if j > 0 {
                    assert(s.drop_first()[j - 1] == s[j]);
                }
            }
        } else {
            if s.first().0 != name {
                let j = choose|j: int|
                    0 <= j < s.drop_first().len() && s.drop_first()[j].0 == name;
                assert(s[j + 1].0 == name);
            }
        }
    }
}

pub proof fn lemma_first_value_push(s: HeaderSeq, e: (Seq<char>, Seq<u8>), name: Seq<char>)
    ensures
        spec_first_value(s.push(e), name) == if spec_first_value(s, name) is Some {
            spec_first_value(s, name)
        } else if e.0 == name {
            Some(e.1)
        } else {
            None
        },
    decreases s.len(),
{
    if s.len() == 0 {
        assert(s.push(e).first() == e);
        assert(s.push(e).drop_first() =~= Seq::<(Seq<char>, Seq<u8>)>::empty());
    } else {
        assert(s.push(e).first() == s.first());
        assert(s.push(e).drop_first() =~= s.drop_first().push(e));
        lemma_first_value_push(s.drop_first(), e, name);
    }
}

/// How removal steps over a final entry.
pub proof fn lemma_remove_name_push(s: HeaderSeq, e: (Seq<char>, Seq<u8>), name: Seq<char>)
    ensures
        spec_remove_name(s.push(e), name) == if e.0 == name {
            spec_remove_name(s, name)
        } else {
            spec_remove_name(s, name).push(e)
        },
{
    assert(s.push(e).drop_last() =~= s);
    assert(s.push(e).last() == e);
}

/// Removing a name nothing carries changes nothing.
pub proof fn lemma_remove_name_absent(s: HeaderSeq, name: Seq<char>)
    requires
        forall|i: int| 0 <= i < s.len() ==> (#[trigger] s[i]).0 != name,
    ensures
        spec_remove_name(s, name) == s,
    decreases s.len(),
{
    if s.len() > 0 {
        assert(forall|i: int|
            0 <= i < s.drop_last().len() ==> #[trigger] s.drop_last()[i] == s[i]);
        lemma_remove_name_absent(s.drop_last(), name);
        assert(s.last().0 != name);
        assert(s.drop_last().push(s.last()) =~= s);
    }
}

/// A block of plain headers.
#[derive(Debug)]
pub struct HeaderMap {
    entries: Vec<(String, Vec<u8>)>,
}

impl Clone for HeaderMap {
    /// An entry-for-entry copy.
    fn clone(&self) -> (r: Self)
        ensures
            r@ == self@,
    {
        let n = self.entries.len();
        let mut out: Vec<(String, Vec<u8>)> = Vec::new();
        let mut i: usize = 0;
        while i < n
            invariant
                i <= n,
                n == self.entries@.len(),
                out@.len() == i,
                forall|j: int|
                    0 <= j < i ==> (#[trigger] out@[j]).0@ == self.entries@[j].0@
                        && out@[j].1@ == self.entries@[j].1@,
            decreases n - i,
        {
            let e = &self.entries[i];
            out.push((e.0.clone(), clone_bytes(&e.1)));
            i = i + 1;
        }
        let r = HeaderMap { entries: out };
        proof {
            assert(r@ =~= self@);
        }
        r
    }
}

impl View for HeaderMap {
    type V = HeaderSeq;

    closed spec fn view(&self) -> HeaderSeq {
        Seq::new(self.entries@.len(), |i: int| (self.entries@[i].0@, self.entries@[i].1@))
    }
}

pub(crate) fn clone_bytes(v: &Vec<u8>) -> (r: Vec<u8>)
    ensures
        r@ == v@,
{
    slice_to_vec(v.as_slice())
}

impl HeaderMap {
    /// A map with no entries.
    pub fn new() -> (r: HeaderMap)
        ensures
            r@ =~= Seq::<(Seq<char>, Seq<u8>)>::empty(),
    {
        HeaderMap { entries: Vec::new() }
    }

    /// A map with no entries; the requested room is a hint this
    /// representation does not track.
    pub fn with_capacity(capacity: usize) -> (r: HeaderMap)
        ensures
            r@ =~= Seq::<(Seq<char>, Seq<u8>)>::empty(),
    {
        let _ = capacity;
        HeaderMap { entries: Vec::new() }
    }

    /// How many values the map holds, over all names.
    pub fn len(&self) -> (r: usize)
        ensures
            r == self@.len(),
    {
        self.entries.len()
    }

    /// How many distinct names the map holds.
    pub fn keys_len(&self) -> (r: usize)
        ensures
            r == spec_distinct_names(self@),
    {
        let n = self.entries.len();
        let mut count: usize = 0;
        let mut i: usize = 0;
        proof {
            assert(self@.subrange(0, 0) =~= Seq::<(Seq<char>, Seq<u8>)>::empty());
        }
        while i < n
            invariant
                i <= n,
                n == self@.len(),
                count <= i,
                count == spec_distinct_names(self@.subrange(0, i as int)),
            decreases n - i,
        {
            let mut seen = false;
            let mut j: usize = 0;
            while j < i
                invariant
                    j <= i,
                    i < n,
                    n == self@.len(),
                    seen == (exists|k: int| 0 <= k < j && self@[k].0 == self@[i as int].0),
                decreases i - j,
            {
                let hit = self.entries[j].0.as_str().eq_str(self.entries[i].0.as_str());
                proof {
                    assert(self@[j as int].0 == self.entries@[j as int].0@);
                    assert(self@[i as int].0 == self.entries@[i as int].0@);
                }
                if hit {
                    seen = true;
                    proof {
                        assert(self@[j as int].0 == self@[i as int].0);
                    }
                } else {
                    proof {
                        assert(self@[j as int].0 != self@[i as int].0);
                    }
                }
                j = j + 1;
            }
            proof {
                let prefix = self@.subrange(0, i + 1);
                assert(prefix.drop_last() =~= self@.subrange(0, i as int));
                assert(prefix.last() == self@[i as int]);
                assert forall|k: int| 0 <= k < i implies prefix[k] == self@[k] by {}
                if seen {
                    let k = choose|k: int| 0 <= k < i && self@[k].0 == self@[i as int].0;
                    assert(prefix[k].0 == prefix.last().0);
                } else {
                    assert forall|k: int|
                        0 <= k < prefix.len() - 1 implies prefix[k].0 != prefix.last().0 by {
                        assert(prefix[k] == self@[k]);
                    }
                }
            }
            if !seen {
                count = count + 1;
            }
            i = i + 1;
        }
        proof {
            assert(self@.subrange(0, n as int) =~= self@);
        }
        count
    }

    pub fn is_empty(&self) -> (r: bool)
        ensures
            r == (self@.len() == 0),
    {
        self.entries.len() == 0
    }

    pub fn clear(&mut self)
        ensures
            final(self)@ =~= Seq::<(Seq<char>, Seq<u8>)>::empty(),
    {
        self.entries.clear();
    }

    /// The name and value at one position, cloned out.
    pub fn entry_at(&self, i: usize) -> (r: (String, Vec<u8>))
        requires
            i < self@.len(),
        ensures
            (r.0@, r.1@) == self@[i as int],
    {
        let e = &self.entries[i];
        (e.0.clone(), clone_bytes(&e.1))
    }

    /// The first value under a name.
    pub fn get(&self, name: &str) -> (r: Option<Vec<u8>>)
        ensures
            match r {
                Some(v) => spec_first_value(self@, name@) == Some(v@),
                None => spec_first_value(self@, name@) is None,
            },
    {
        let n = self.entries.len();
        let mut i: usize = 0;
        while i < n
            invariant
                i <= n,
                n == self@.len(),
                forall|j: int| 0 <= j < i ==> self@[j].0 != name@,
            decreases n - i,
        {
            if self.entries[i].0.as_str().eq_str(name) {
                proof {
                    lemma_first_value_skip(self@, name@, i as int);
                    assert(self@.skip(i as int).first() == self@[i as int]);
                }
                return Some(clone_bytes(&self.entries[i].1));
            }
            i = i + 1;
        }
        proof {
            lemma_first_value_none(self@, name@);
        }
        None
    }

    /// Whether any value stands under a name.
    pub fn contains_name(&self, name: &str) -> (r: bool)
        ensures
            r == spec_has_name(self@, name@),
    {
        self.get(name).is_some()
    }

    /// Every value under a name, in order.
    pub fn get_all(&self, name: &str) -> (r: Vec<Vec<u8>>)
        ensures
            Seq::new(r@.len(), |k: int| r@[k]@) == spec_all_values(self@, name@),
    {
        let n = self.entries.len();
        let mut out: Vec<Vec<u8>> = Vec::new();
        let mut i: usize = 0;
        proof {
            assert(self@.subrange(0, 0) =~= Seq::<(Seq<char>, Seq<u8>)>::empty());
            assert(Seq::new(out@.len(), |k: int| out@[k]@) =~= spec_all_values(
                self@.subrange(0, 0),
                name@,
            ));
        }
        while i < n
            invariant
                i <= n,
                n == self@.len(),
                Seq::new(out@.len(), |k: int| out@[k]@) == spec_all_values(
                    self@.subrange(0, i as int),
                    name@,
                ),
            decreases n - i,
        {
            proof {
                assert(self@.subrange(0, i + 1).drop_last() =~= self@.subrange(0, i as int));
                assert(self@.subrange(0, i + 1).last() == self@[i as int]);
                assert(self@[i as int].0 == self.entries@[i as int].0@);
                assert(self@[i as int].1 == self.entries@[i as int].1@);
            }
            let ghost outseq = Seq::new(out@.len(), |k: int| out@[k]@);
            if self.entries[i].0.as_str().eq_str(name) {
                out.push(clone_bytes(&self.entries[i].1));
                proof {
                    assert(Seq::new(out@.len(), |k: int| out@[k]@) =~= outseq.push(
                        self@[i as int].1,
                    ));
                }
            }
            i = i + 1;
        }
        proof {
            assert(self@.subrange(0, n as int) =~= self@);
        }
        out
    }

    /// Add a value at the end, keeping whatever the name already has.
    pub fn append(&mut self, name: &str, value: Vec<u8>)
        ensures
            final(self)@ =~= old(self)@.push((name@, value@)),
    {
        let owned: String = name.to_owned();
        self.entries.push((owned, value));
    }

    /// Replace everything under a name by one value, added at the end.
    /// Answers the first value the name had before, if any.
    pub fn insert(&mut self, name: &str, value: Vec<u8>) -> (r: Option<Vec<u8>>)
        ensures
            final(self)@ =~= spec_insert(old(self)@, name@, value@),
            match r {
                Some(v) => spec_first_value(old(self)@, name@) == Some(v@),
                None => spec_first_value(old(self)@, name@) is None,
            },
    {
        let first = self.remove(name);
        self.append(name, value);
        first
    }

    /// Drop every value under a name; answer the first one dropped.
    pub fn remove(&mut self, name: &str) -> (r: Option<Vec<u8>>)
        ensures
            final(self)@ =~= spec_remove_name(old(self)@, name@),
            match r {
                Some(v) => spec_first_value(old(self)@, name@) == Some(v@),
                None => spec_first_value(old(self)@, name@) is None,
            },
    {
        let ghost orig = self@;
        let n = self.entries.len();
        let mut kept: Vec<(String, Vec<u8>)> = Vec::new();
        let mut first: Option<Vec<u8>> = None;
        let mut i: usize = 0;
        let ghost keptseq = Seq::new(kept@.len(), |k: int| (kept@[k].0@, kept@[k].1@));
        proof {
            assert(orig.subrange(0, 0) =~= Seq::<(Seq<char>, Seq<u8>)>::empty());
            assert(keptseq =~= spec_remove_name(orig.subrange(0, 0), name@));
        }
        while i < n
            invariant
                i <= n,
                n == orig.len(),
                orig == Seq::new(self.entries@.len(), |k: int| (self.entries@[k].0@,
                    self.entries@[k].1@,
                )),
                self.entries@.len() == n,
                Seq::new(kept@.len(), |k: int| (kept@[k].0@, kept@[k].1@))
                    == spec_remove_name(orig.subrange(0, i as int), name@),
                match first {
                    Some(v) => spec_first_value(orig.subrange(0, i as int), name@) == Some(
                        v@,
                    ),
                    None => spec_first_value(orig.subrange(0, i as int), name@) is None,
                },
            decreases n - i,
        {
            proof {
                assert(orig.subrange(0, i + 1).drop_last() =~= orig.subrange(0, i as int));
                assert(orig.subrange(0, i + 1).last() == orig[i as int]);
                assert(orig.subrange(0, i + 1) =~= orig.subrange(0, i as int).push(
                    orig[i as int],
                ));
                assert(orig[i as int].0 == self.entries@[i as int].0@);
                assert(orig[i as int].1 == self.entries@[i as int].1@);
                lemma_first_value_push(orig.subrange(0, i as int), orig[i as int], name@);
            }
            let hit = self.entries[i].0.as_str().eq_str(name);
            if hit {
                if first.is_none() {
                    first = Some(clone_bytes(&self.entries[i].1));
                }
            } else {
                let e = &self.entries[i];
                kept.push((e.0.clone(), clone_bytes(&e.1)));
            }
            proof {
                assert(Seq::new(kept@.len(), |k: int| (kept@[k].0@, kept@[k].1@))
                    =~= spec_remove_name(orig.subrange(0, i + 1), name@));
            }
            i = i + 1;
        }
        proof {
            assert(orig.subrange(0, n as int) =~= orig);
        }
        self.entries = kept;
        first
    }

    /// Add every entry of another map at the end, in its order.
    pub fn extend(&mut self, other: HeaderMap)
        ensures
            final(self)@ =~= old(self)@ + other@,
    {
        let n = other.entries.len();
        let mut i: usize = 0;
        proof {
            assert(old(self)@ + other@.subrange(0, 0) =~= old(self)@);
        }
        while i < n
            invariant
                i <= n,
                n == other@.len(),
                self@ == old(self)@ + other@.subrange(0, i as int),
                other@ == Seq::new(other.entries@.len(), |k: int| (other.entries@[k].0@,
                    other.entries@[k].1@,
                )),
                other.entries@.len() == n,
            decreases n - i,
        {
            let ghost prev = self@;
            let e = &other.entries[i];
            self.entries.push((e.0.clone(), clone_bytes(&e.1)));
            proof {
                assert(self@ =~= prev.push(other@[i as int]));
                assert(other@.subrange(0, i + 1) =~= other@.subrange(0, i as int).push(
                    other@[i as int],
                ));
                assert(self@ =~= old(self)@ + other@.subrange(0, i + 1));
            }
            i = i + 1;
        }
        proof {
            assert(other@.subrange(0, n as int) =~= other@);
        }
    }
}

/// Equality of two string slices, settled byte by byte.
pub(crate) trait StrEqExt {
    fn eq_str(&self, other: &str) -> bool;
}

impl StrEqExt for str {
    fn eq_str(&self, other: &str) -> (r: bool)
        ensures
            r == (self@ == other@),
    {
        let a = self.as_bytes();
        let b = other.as_bytes();
        if a.len() != b.len() {
            proof {
                if self@ == other@ {
                    assert(self.spec_bytes() == other.spec_bytes());
                }
            }
            return false;
        }
        let n = a.len();
        let mut i: usize = 0;
        while i < n
            invariant
                i <= n,
                n == a@.len(),
                n == b@.len(),
                a@ == self.spec_bytes(),
                b@ == other.spec_bytes(),
                forall|j: int| 0 <= j < i ==> a@[j] == b@[j],
            decreases n - i,
        {
            if a[i] != b[i] {
                proof {
                    if self@ == other@ {
                        assert(self.spec_bytes() == other.spec_bytes());
                    }
                }
                return false;
            }
            i = i + 1;
        }
        proof {
            assert(self.spec_bytes() =~= other.spec_bytes());
            vstd::utf8::encode_utf8_decode_utf8(self@);
            vstd::utf8::encode_utf8_decode_utf8(other@);
        }
        true
    }
}

} // verus!
