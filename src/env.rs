//! Lines of the native environment list, `NAME=value`.
use vstd::prelude::*;

verus! {

/// Relies on memchr::memchr: the index of the first occurrence of `needle`
/// in `haystack`, or `None` when it does not occur.
#[verifier::external_body]
fn find_byte(needle: u8, haystack: &[u8]) -> (r: Option<usize>)
    ensures
        r matches Some(i) ==> (i < haystack@.len() && haystack@[i as int] == needle && forall|j: int|
            0 <= j < i ==> haystack@[j] != needle),
        r is None ==> forall|j: int| 0 <= j < haystack@.len() ==> haystack@[j] != needle,
{
    memchr::memchr(needle, haystack)
}

/// `p` is the index of the `=` that separates the name from the value: the
/// first one after the first byte, since a name is never empty but may start
/// with `=`.
pub open spec fn is_separator(line: Seq<u8>, p: int) -> bool {
    &&& 1 <= p < line.len()
    &&& line[p] == 61u8
    &&& forall|j: int| 1 <= j < p ==> line[j] != 61u8
}

/// The name and value of an environment line, or `None` for a malformed
/// line (one without a separator).
pub open spec fn env_line(line: Seq<u8>) -> Option<(Seq<u8>, Seq<u8>)> {
    if exists|p: int| is_separator(line, p) {
        let p = choose|p: int| is_separator(line, p);
        Some((line.subrange(0, p), line.subrange(p + 1, line.len() as int)))
    } else {
        None
    }
}

/// The entries of the well-formed lines among `lines`, in order.
pub open spec fn env_entries(lines: Seq<Seq<u8>>) -> Seq<(Seq<u8>, Seq<u8>)>
    decreases lines.len(),
{
    if lines.len() == 0 {
        Seq::empty()
    } else {
        let done = env_entries(lines.drop_last());
        match env_line(lines.last()) {
            Some(kv) => done.push(kv),
            None => done,
        }
    }
}

pub open spec fn entry_view(e: (Vec<u8>, Vec<u8>)) -> (Seq<u8>, Seq<u8>) {
    (e.0@, e.1@)
}

fn copy_bytes(input: &[u8], lo: usize, hi: usize) -> (r: Vec<u8>)
    requires
        lo <= hi <= input@.len(),
    ensures
        r@ == input@.subrange(lo as int, hi as int),
{
    let mut r: Vec<u8> = Vec::new();
    let mut i = lo;
    while i < hi
        invariant
            lo <= i <= hi,
            hi <= input@.len(),
            r@ == input@.subrange(lo as int, i as int),
        decreases hi - i,
    {
        r.push(input[i]);
        assert(input@.subrange(lo as int, i + 1) =~= input@.subrange(lo as int, i as int).push(
            input@[i as int],
        ));
        i += 1;
    }
    r
}

/// Splits an environment line into its name and value at the separating
/// `=`; `None` for an empty or malformed line.
pub fn parse_env_line(input: &[u8]) -> (r: Option<(Vec<u8>, Vec<u8>)>)
    ensures
        match r {
            Some(e) => env_line(input@) == Some(entry_view(e)),
            None => env_line(input@) is None,
        },
{
    if input.len() == 0 {
        return None;
    }
    let (_, rest) = input.split_at(1);
    match find_byte(61u8, rest) {
        None => {
            assert forall|p: int| !is_separator(input@, p) by {
                if 1 <= p < input@.len() {
                    assert(rest@[p - 1] == input@[p]);
                }
            }
            None
        },
        Some(q) => {
            let p = q + 1;
            assert(is_separator(input@, p as int)) by {
                assert forall|j: int| 1 <= j < p implies input@[j] != 61u8 by {
                    assert(rest@[j - 1] == input@[j]);
                }
                assert(rest@[q as int] == input@[p as int]);
            }
            let ghost c = choose|x: int| is_separator(input@, x);
            assert(c == p as int) by {
                if c < p {
                    assert(input@[c] != 61u8);
                } else if c > p {
                    assert(input@[p as int] != 61u8);
                }
            }
            let key = copy_bytes(input, 0, p);
            let value = copy_bytes(input, p + 1, input.len());
            Some((key, value))
        },
    }
}

/// The environment of a transaction, as name / value pairs in order.
pub struct PamEnvList {
    entries: Vec<(Vec<u8>, Vec<u8>)>,
    next: usize,
}

impl PamEnvList {
    /// The pairs not yet handed out by `next`.
    pub closed spec fn remaining(&self) -> Seq<(Seq<u8>, Seq<u8>)> {
        self.entries@.skip(self.next as int).map_values(|e: (Vec<u8>, Vec<u8>)| entry_view(e))
    }

    pub closed spec fn wf(&self) -> bool {
        self.next <= self.entries@.len()
    }

    /// The list of the well-formed lines among `lines`; malformed lines are
    /// skipped.
    pub fn from_lines(lines: &Vec<Vec<u8>>) -> (r: PamEnvList)
        ensures
            r.wf(),
            r.remaining() == env_entries(lines@.map_values(|l: Vec<u8>| l@)),
    {
        let ghost views = lines@.map_values(|l: Vec<u8>| l@);
        let mut entries: Vec<(Vec<u8>, Vec<u8>)> = Vec::new();
        let mut i: usize = 0;
        assert(views.take(0) =~= Seq::<Seq<u8>>::empty());
        assert(entries@.map_values(|e: (Vec<u8>, Vec<u8>)| entry_view(e)) =~= Seq::<
            (Seq<u8>, Seq<u8>),
        >::empty());
        while i < lines.len()
            invariant
                i <= lines@.len(),
                views == lines@.map_values(|l: Vec<u8>| l@),
                entries@.map_values(|e: (Vec<u8>, Vec<u8>)| entry_view(e)) == env_entries(
                    views.take(i as int),
                ),
            decreases lines@.len() - i,
        {
            let ghost before = entries@;
            assert(views.take(i + 1).drop_last() =~= views.take(i as int));
            assert(views.take(i + 1).last() == lines@[i as int]@);
            match parse_env_line(lines[i].as_slice()) {
                Some(e) => {
                    entries.push(e);
                    assert(entries@.map_values(|e: (Vec<u8>, Vec<u8>)| entry_view(e)) =~= before.map_values(
                        |e: (Vec<u8>, Vec<u8>)| entry_view(e),
                    ).push(entry_view(e)));
                },
                None => {},
            }
            i += 1;
        }
        assert(views.take(lines@.len() as int) =~= views);
        let r = PamEnvList { entries, next: 0 };
        assert(r.entries@.skip(0) =~= r.entries@);
        r
    }

    /// Hands out the next pair, if any.
    pub fn next(&mut self) -> (r: Option<(Vec<u8>, Vec<u8>)>)
        requires
            old(self).wf(),
        ensures
            final(self).wf(),
            old(self).remaining().len() == 0 ==> r is None && final(self).remaining().len() == 0,
            old(self).remaining().len() > 0 ==> (r matches Some(e) && entry_view(e) == old(
                self,
            ).remaining()[0] && final(self).remaining() == old(self).remaining().drop_first()),
    {
        if self.next >= self.entries.len() {
            return None;
        }
        let entry = &self.entries[self.next];
        let name = entry.0.clone();
        let value = entry.1.clone();
        assert(name@ =~= entry.0@);
        assert(value@ =~= entry.1@);
        let e = (name, value);
        let ghost before = self.remaining();
        self.next = self.next + 1;
        assert(self.remaining() =~= before.drop_first());
        Some(e)
    }

    /// The number of pairs not yet handed out.
    pub fn len(&self) -> (r: usize)
        requires
            self.wf(),
        ensures
            r == self.remaining().len(),
    {
        self.entries.len() - self.next
    }
}

} // verus!
