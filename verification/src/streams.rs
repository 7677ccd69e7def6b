use vstd::prelude::*;

use crate::selector::spec_non_empty;
use crate::text::str_eq;
use crate::types::CaptureFrame;

verus! {

/// How many incremental capture streams are remembered at once.
pub const MAX_INCREMENTAL_CAPTURE_STREAMS: usize = 64;

/// The longest stream id accepted, in UTF-8 bytes.
pub const MAX_CAPTURE_STREAM_ID_LEN: usize = 128;

/// The last frame of an incremental capture stream and its number.
#[derive(Debug)]
pub struct IncrementalCaptureStream {
    pub sequence: u64,
    pub frame: CaptureFrame,
}

/// A stream id has an entry in the list.
pub open spec fn has_id(s: Seq<(Seq<char>, IncrementalCaptureStream)>, id: Seq<char>) -> bool {
    exists|i: int| 0 <= i < s.len() && (#[trigger] s[i]).0 == id
}

/// No stream id has two entries.
pub open spec fn ids_distinct(s: Seq<(Seq<char>, IncrementalCaptureStream)>) -> bool {
    forall|i: int, j: int| 0 <= i < j < s.len() ==> (#[trigger] s[i]).0 != (#[trigger] s[j]).0
}

/// The streams after recording `stream` under `id`: a known stream is
/// replaced in place; a new one goes last, and when the list is full the
/// oldest stream is forgotten.
pub open spec fn spec_insert(
    s: Seq<(Seq<char>, IncrementalCaptureStream)>,
    id: Seq<char>,
    stream: IncrementalCaptureStream,
) -> Seq<(Seq<char>, IncrementalCaptureStream)> {
    if has_id(s, id) {
        s.update(choose|i: int| 0 <= i < s.len() && (#[trigger] s[i]).0 == id, (id, stream))
    } else if s.len() < MAX_INCREMENTAL_CAPTURE_STREAMS {
        s.push((id, stream))
    } else {
        s.drop_first().push((id, stream))
    }
}

/// The remembered incremental capture streams, oldest first.
#[derive(Debug)]
pub struct IncrementalCaptureState {
    entries: Vec<(String, IncrementalCaptureStream)>,
}

/// The stream list a vector of entries holds.
pub open spec fn entries_view(v: Seq<(String, IncrementalCaptureStream)>) -> Seq<
    (Seq<char>, IncrementalCaptureStream),
> {
    v.map_values(|e: (String, IncrementalCaptureStream)| (e.0@, e.1))
}

impl View for IncrementalCaptureState {
    type V = Seq<(Seq<char>, IncrementalCaptureStream)>;

    closed spec fn view(&self) -> Seq<(Seq<char>, IncrementalCaptureStream)> {
        entries_view(self.entries@)
    }
}

impl IncrementalCaptureState {
    #[verifier::type_invariant]
    spec fn well_formed(self) -> bool {
        &&& self@.len() <= MAX_INCREMENTAL_CAPTURE_STREAMS
        &&& ids_distinct(self@)
    }

    /// No stream is remembered.
    pub fn new() -> (s: Self)
        ensures
            s@ == Seq::<(Seq<char>, IncrementalCaptureStream)>::empty(),
    {
        let s = IncrementalCaptureState { entries: Vec::new() };
        assert(s@ =~= Seq::<(Seq<char>, IncrementalCaptureStream)>::empty());
        s
    }

    /// The number of remembered streams.
    pub fn len(&self) -> (n: usize)
        ensures
            n == self@.len(),
            n <= MAX_INCREMENTAL_CAPTURE_STREAMS,
    {
        proof {
            use_type_invariant(self);
        }
        self.entries.len()
    }

    fn position(&self, id: &str) -> (r: Option<usize>)
        ensures
            match r {
                Some(k) => k < self@.len() && self@[k as int].0 == id@,
                None => !has_id(self@, id@),
            },
    {
        let mut i: usize = 0;
        while i < self.entries.len()
            invariant
                i <= self.entries@.len(),
                self@.len() == self.entries@.len(),
                forall|j: int| 0 <= j < i ==> (#[trigger] self@[j]).0 != id@,
            decreases self.entries@.len() - i,
        {
            assert(self@[i as int].0 == self.entries@[i as int].0@);
            if str_eq(self.entries[i].0.as_str(), id) {
                return Some(i);
            }
            i = i + 1;
        }
        None
    }

    /// The stream recorded under `id`, if any.
    pub fn get(&self, id: &str) -> (r: Option<&IncrementalCaptureStream>)
        ensures
            match r {
                Some(x) => exists|k: int| 0 <= k < self@.len() && self@[k].0 == id@ && self@[k].1 == *x,
                None => !has_id(self@, id@),
            },
    {
        match self.position(id) {
            Some(k) => {
                assert(self@[k as int].1 == self.entries@[k as int].1);
                Some(&self.entries[k].1)
            },
            None => None,
        }
    }

    /// Records `stream` under `stream_id` (see [`spec_insert`]); at most
    /// [`MAX_INCREMENTAL_CAPTURE_STREAMS`] streams are kept.
    pub fn insert(&mut self, stream_id: String, stream: IncrementalCaptureStream)
        ensures
            final(self)@ == spec_insert(old(self)@, stream_id@, stream),
            final(self)@.len() <= MAX_INCREMENTAL_CAPTURE_STREAMS,
            ids_distinct(final(self)@),
    {
        proof {
            use_type_invariant(&*self);
        }
        let ghost before = self@;
        let ghost id = stream_id@;
        match self.position(stream_id.as_str()) {
            Some(k) => {
                proof {
                    let c = choose|i: int| 0 <= i < before.len() && (#[trigger] before[i]).0 == id;
                    assert(before[k as int].0 == id);
                    if c != k as int {
                        if c < k {
                            assert(before[c].0 != before[k as int].0);
                        } else {
                            assert(before[k as int].0 != before[c].0);
                        }
                    }
                }
                let mut entries = Vec::new();
                std::mem::swap(&mut entries, &mut self.entries);
                entries.set(k, (stream_id, stream));
                proof {
                    let after = entries_view(entries@);
                    assert(after =~= before.update(k as int, (id, stream)));
                    assert forall|i: int, j: int| 0 <= i < j < after.len() implies (
                    #[trigger] after[i]).0 != (#[trigger] after[j]).0 by {
                        assert(before[i].0 != before[j].0);
                    }
                }
                self.entries = entries;
            },
            None => {
                let mut entries = Vec::new();
                std::mem::swap(&mut entries, &mut self.entries);
                if entries.len() >= MAX_INCREMENTAL_CAPTURE_STREAMS {
                    entries.remove(0);
                }
                entries.push((stream_id, stream));
                proof {
                    let after = entries_view(entries@);
                    if before.len() < MAX_INCREMENTAL_CAPTURE_STREAMS {
                        assert(after =~= before.push((id, stream)));
                    } else {
                        assert(after =~= before.drop_first().push((id, stream)));
                    }
                    assert forall|i: int, j: int| 0 <= i < j < after.len() implies (
                    #[trigger] after[i]).0 != (#[trigger] after[j]).0 by {
                        if j == after.len() - 1 {
                            if before.len() < MAX_INCREMENTAL_CAPTURE_STREAMS {
                                assert(after[i] == before[i]);
                            } else {
                                assert(after[i] == before[i + 1]);
                            }
                        } else if before.len() < MAX_INCREMENTAL_CAPTURE_STREAMS {
                            assert(before[i].0 != before[j].0);
                        } else {
                            assert(before[i + 1].0 != before[j + 1].0);
                        }
                    }
                }
                self.entries = entries;
            },
        }
    }

    /// The number the next frame of a stream gets: 1 when the stream is new
    /// or reset, otherwise one more than its last (saturating).
    pub fn next_sequence(&self, stream_id: &str, reset: bool) -> (n: u64)
        ensures
            reset || !has_id(self@, stream_id@) ==> n == 1,
            !reset ==> forall|k: int|
                0 <= k < self@.len() && (#[trigger] self@[k]).0 == stream_id@ ==> n == if self@[k].1.sequence
                    == u64::MAX {
                    u64::MAX
                } else {
                    (self@[k].1.sequence + 1) as u64
                },
    {
        proof {
            use_type_invariant(self);
        }
        if reset {
            return 1;
        }
        match self.get(stream_id) {
            Some(s) => s.sequence.saturating_add(1),
            None => 1,
        }
    }

    /// The frame a new frame of the stream is compared with: the stream's
    /// last frame when it is of the same size, unless the stream is reset
    /// or the caller wants whole frames.
    pub fn previous_frame(
        &self,
        stream_id: &str,
        reset: bool,
        low_bandwidth: bool,
        width: u32,
        height: u32,
    ) -> (r: Option<&CaptureFrame>)
        ensures
            reset || !low_bandwidth || !has_id(self@, stream_id@) ==> r is None,
            !reset && low_bandwidth ==> forall|k: int|
                0 <= k < self@.len() && (#[trigger] self@[k]).0 == stream_id@ ==> (if self@[k].1.frame.width
                    == width && self@[k].1.frame.height == height {
                    r == Some(&self@[k].1.frame)
                } else {
                    r is None
                }),
    {
        proof {
            use_type_invariant(self);
        }
        if reset || !low_bandwidth {
            return None;
        }
        match self.get(stream_id) {
            Some(s) => {
                if s.frame.width == width && s.frame.height == height {
                    Some(&s.frame)
                } else {
                    None
                }
            },
            None => None,
        }
    }
}

/// The stream id a request names: trimmed, `default` when blank.
pub open spec fn spec_stream_id(stream_id: Seq<char>) -> Seq<char> {
    match spec_non_empty(stream_id) {
        Some(t) => t,
        None => "default"@,
    }
}

/// The stream id a capture request names (see [`spec_stream_id`]).
pub fn normalized_capture_stream_id(stream_id: &str) -> (r: String)
    ensures
        r@ == spec_stream_id(stream_id@),
{
    match crate::selector::non_empty_string(stream_id) {
        Some(t) => t,
        None => String::from_str("default"),
    }
}

/// Bytes one character takes in UTF-8.
pub open spec fn utf8_width(c: char) -> nat {
    if (c as u32) < 0x80 {
        1
    } else if (c as u32) < 0x800 {
        2
    } else if (c as u32) < 0x10000 {
        3
    } else {
        4
    }
}

/// Bytes a text takes in UTF-8.
pub open spec fn utf8_len(s: Seq<char>) -> nat
    decreases s.len(),
{
    if s.len() == 0 {
        0
    } else {
        utf8_len(s.drop_last()) + utf8_width(s.last())
    }
}

/// The number of bytes the text takes in UTF-8.
pub fn utf8_byte_len(s: &[char]) -> (n: u128)
    ensures
        n == utf8_len(s@),
{
    let mut acc: u128 = 0;
    let mut i: usize = 0;
    while i < s.len()
        invariant
            i <= s@.len(),
            acc == utf8_len(s@.subrange(0, i as int)),
            acc <= 4 * i,
        decreases s@.len() - i,
    {
        let c = s[i];
        let code = c as u32;
        let w: u128 = if code < 0x80 {
            1
        } else if code < 0x800 {
            2
        } else if code < 0x10000 {
            3
        } else {
            4
        };
        assert(s@.subrange(0, i + 1).drop_last() =~= s@.subrange(0, i as int));
        acc = acc + w;
        i = i + 1;
    }
    assert(s@.subrange(0, i as int) =~= s@);
    acc
}

/// The stream id of a capture request, normalised, unless it takes more than
/// [`MAX_CAPTURE_STREAM_ID_LEN`] bytes in UTF-8.
pub fn capture_stream_id(stream_id: Option<&str>) -> (r: Result<String, String>)
    ensures
        ({
            let id = match stream_id {
                Some(s) => spec_stream_id(s@),
                None => spec_stream_id(Seq::empty()),
            };
            if utf8_len(id) > MAX_CAPTURE_STREAM_ID_LEN {
                r matches Err(e) && e@ == "capture_delta stream_id is too long: maximum 128 bytes"@
            } else {
                r matches Ok(s) && s@ == id
            }
        }),
{
    let id = match stream_id {
        Some(s) => normalized_capture_stream_id(s),
        None => {
            proof {
                reveal_strlit("");
            }
            normalized_capture_stream_id("")
        },
    };
    let chars = crate::text::chars_of(id.as_str());
    if utf8_byte_len(&chars) > MAX_CAPTURE_STREAM_ID_LEN as u128 {
        return Err(String::from_str("capture_delta stream_id is too long: maximum 128 bytes"));
    }
    Ok(id)
}

/// Recording a stream makes it the one found under its id, and keeps every
/// other stream but, when a new id arrives at a full list, the oldest.
pub proof fn lemma_insert_then_lookup(
    s: Seq<(Seq<char>, IncrementalCaptureStream)>,
    id: Seq<char>,
    stream: IncrementalCaptureStream,
    other: Seq<char>,
)
    requires
        ids_distinct(s),
        s.len() <= MAX_INCREMENTAL_CAPTURE_STREAMS,
        other != id,
    ensures
        exists|k: int|
            0 <= k < spec_insert(s, id, stream).len() && #[trigger] spec_insert(s, id, stream)[k] == (
                id,
                stream,
            ),
        has_id(s, other) && !(!has_id(s, id) && s.len() == MAX_INCREMENTAL_CAPTURE_STREAMS && s[0].0
            == other) ==> has_id(spec_insert(s, id, stream), other),
        spec_insert(s, id, stream).len() <= MAX_INCREMENTAL_CAPTURE_STREAMS,
{
    let t = spec_insert(s, id, stream);
    if has_id(s, id) {
        let c = choose|i: int| 0 <= i < s.len() && (#[trigger] s[i]).0 == id;
        assert(t[c] == (id, stream));
        if has_id(s, other) {
            let j = choose|i: int| 0 <= i < s.len() && (#[trigger] s[i]).0 == other;
            assert(t[j] == s[j]);
        }
    } else if s.len() < MAX_INCREMENTAL_CAPTURE_STREAMS {
        assert(t[s.len() as int] == (id, stream));
        if has_id(s, other) {
            let j = choose|i: int| 0 <= i < s.len() && (#[trigger] s[i]).0 == other;
            assert(t[j] == s[j]);
        }
    } else {
        assert(t[t.len() - 1] == (id, stream));
        if has_id(s, other) && s[0].0 != other {
            let j = choose|i: int| 0 <= i < s.len() && (#[trigger] s[i]).0 == other;
            assert(j != 0);
            assert(t[j - 1] == s[j]);
        }
    }
}


/// The ids of a stream list, oldest first.
pub open spec fn stream_ids(s: Seq<(Seq<char>, IncrementalCaptureStream)>) -> Seq<Seq<char>> {
    s.map_values(|e: (Seq<char>, IncrementalCaptureStream)| e.0)
}

/// Recording a stream keeps the list well formed (distinct ids, at most
/// [`MAX_INCREMENTAL_CAPTURE_STREAMS`] of them) and files the stream under its
/// id; the order of ids is kept for a known id, a new id goes last, and only
/// when the list is full is the oldest id, never the new one, dropped.
pub proof fn lemma_insert_keeps_order(
    s: Seq<(Seq<char>, IncrementalCaptureStream)>,
    id: Seq<char>,
    stream: IncrementalCaptureStream,
)
    requires
        ids_distinct(s),
        s.len() <= MAX_INCREMENTAL_CAPTURE_STREAMS,
    ensures
        ({
            let t = spec_insert(s, id, stream);
            &&& ids_distinct(t)
            &&& t.len() <= MAX_INCREMENTAL_CAPTURE_STREAMS
            &&& has_id(t, id)
            &&& forall|k: int| 0 <= k < t.len() && (#[trigger] t[k]).0 == id ==> t[k].1 == stream
            &&& has_id(s, id) ==> stream_ids(t) == stream_ids(s)
            &&& !has_id(s, id) && s.len() < MAX_INCREMENTAL_CAPTURE_STREAMS ==> stream_ids(t)
                == stream_ids(s).push(id)
            &&& !has_id(s, id) && s.len() == MAX_INCREMENTAL_CAPTURE_STREAMS ==> stream_ids(t)
                == stream_ids(s).push(id).drop_first()
        }),
{
    let t = spec_insert(s, id, stream);
    if has_id(s, id) {
        let c = choose|i: int| 0 <= i < s.len() && (#[trigger] s[i]).0 == id;
        assert(t[c] == (id, stream));
        assert(stream_ids(t) =~= stream_ids(s));
        assert forall|i: int, j: int| 0 <= i < j < t.len() implies (#[trigger] t[i]).0 != (
        #[trigger] t[j]).0 by {
            assert(t[i].0 == stream_ids(t)[i]);
            assert(t[j].0 == stream_ids(t)[j]);
            assert(s[i].0 == stream_ids(s)[i]);
            assert(s[j].0 == stream_ids(s)[j]);
        }
        assert forall|k: int| 0 <= k < t.len() && (#[trigger] t[k]).0 == id implies t[k].1
            == stream by {
            if k != c {
                assert(s[k].0 == id);
                assert(k < c || c < k);
            }
        }
    } else if s.len() < MAX_INCREMENTAL_CAPTURE_STREAMS {
        assert(t[s.len() as int] == (id, stream));
        assert(stream_ids(t) =~= stream_ids(s).push(id));
        assert forall|i: int, j: int| 0 <= i < j < t.len() implies (#[trigger] t[i]).0 != (
        #[trigger] t[j]).0 by {
            if j == s.len() {
                assert(t[i] == s[i]);
            }
        }
    } else {
        assert(t[t.len() - 1] == (id, stream));
        assert(stream_ids(t) =~= stream_ids(s).push(id).drop_first());
        assert forall|i: int, j: int| 0 <= i < j < t.len() implies (#[trigger] t[i]).0 != (
        #[trigger] t[j]).0 by {
            assert(t[i] == s[i + 1]);
            if j < t.len() - 1 {
                assert(t[j] == s[j + 1]);
            }
        }
        assert forall|k: int| 0 <= k < t.len() && (#[trigger] t[k]).0 == id implies t[k].1
            == stream by {
            if k < t.len() - 1 {
                assert(t[k] == s[k + 1]);
            }
        }
    }
}

} // verus!
