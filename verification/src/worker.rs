use vstd::prelude::*;

verus! {

/// How a receive collects bytes from the staging buffer.
#[derive(Debug, Clone, Copy, PartialEq, Eq, Structural)]
pub enum CollectKind {
    /// Consume all data from the buffer.
    Everything,
    /// Consume data through the first occurrence of the given byte.
    /// If the byte is not found then consume the whole buffer.
    UntilOrEverything(u8),
    /// Consume data through the first occurrence of the given byte.
    /// If the byte is not found then do not consume any data.
    UntilOrNothing(u8),
}

/// What a collection hands out of a staged byte sequence: `None` stands
/// for "no payload".
pub open spec fn taken_by_collect(s: Seq<u8>, k: CollectKind) -> Option<Seq<u8>> {
    match k {
        CollectKind::Everything => if s.len() == 0 {
            None
        } else {
            Some(s)
        },
        CollectKind::UntilOrEverything(d) => if s.len() == 0 {
            None
        } else {
            match s.index_of_first(d) {
                Some(i) => Some(s.take(i + 1)),
                None => Some(s),
            }
        },
        CollectKind::UntilOrNothing(d) => match s.index_of_first(d) {
            Some(i) => Some(s.take(i + 1)),
            None => None,
        },
    }
}

/// What a collection leaves staged.
pub open spec fn left_by_collect(s: Seq<u8>, k: CollectKind) -> Seq<u8> {
    match k {
        CollectKind::Everything => if s.len() == 0 {
            s
        } else {
            Seq::empty()
        },
        CollectKind::UntilOrEverything(d) => match s.index_of_first(d) {
            Some(i) => s.skip(i + 1),
            None => Seq::empty(),
        },
        CollectKind::UntilOrNothing(d) => match s.index_of_first(d) {
            Some(i) => s.skip(i + 1),
            None => s,
        },
    }
}

/// The collection policy a receive with an optional delimiter uses after
/// the device has been drained: everything without a delimiter, through
/// the delimiter (or everything when it never arrived) with one.
pub open spec fn kind_for_receive(until: Option<u8>) -> CollectKind {
    match until {
        None => CollectKind::Everything,
        Some(d) => CollectKind::UntilOrEverything(d),
    }
}

/// Finds the first occurrence of `needle`.
pub fn position_of(data: &Vec<u8>, needle: u8) -> (r: Option<usize>)
    ensures
        match r {
            Some(i) => i < data@.len() && data@[i as int] == needle
                && data@.index_of_first(needle) == Some(i as int),
            None => !data@.contains(needle) && data@.index_of_first(needle) is None,
        },
{
    let mut i: usize = 0;
    while i < data.len()
        invariant
            i <= data@.len(),
            forall|j: int| 0 <= j < i ==> data@[j] != needle,
        decreases data@.len() - i,
    {
        if data[i] == needle {
            proof {
                data@.index_of_first_ensures(needle);
            }
            return Some(i);
        }
        i += 1;
    }
    proof {
        data@.index_of_first_ensures(needle);
    }
    None
}

/// The worker's staging buffer: the FIFO of bytes already read from the
/// device but not yet delivered to a caller. Its view is the staged byte
/// sequence in arrival order.
pub struct Worker {
    buff: Vec<u8>,
}

impl View for Worker {
    type V = Seq<u8>;

    closed spec fn view(&self) -> Seq<u8> {
        self.buff@
    }
}

impl Worker {
    /// Creates a worker with nothing staged.
    pub fn new() -> (r: Worker)
        ensures
            r@ == Seq::<u8>::empty(),
    {
        Worker { buff: Vec::new() }
    }

    /// Appends a drained chunk to the staging buffer, preserving arrival
    /// order.
    pub fn stage(&mut self, chunk: &[u8])
        ensures
            final(self)@ == old(self)@ + chunk@,
    {
        let n: usize = chunk.len();
        let mut i: usize = 0;
        while i < n
            invariant
                i <= n,
                n == chunk@.len(),
                self@ == old(self)@ + chunk@.take(i as int),
            decreases n - i,
        {
            self.buff.push(chunk[i]);
            proof {
                let prev = old(self)@ + chunk@.take(i as int);
                assert(old(self)@ + chunk@.take(i + 1) =~= prev.push(chunk@[i as int]));
            }
            i += 1;
        }
        proof {
            assert(chunk@.take(n as int) =~= chunk@);
        }
    }

    /// Empties the staging buffer, as a clear request demands.
    pub fn clear_staging(&mut self)
        ensures
            final(self)@ == Seq::<u8>::empty(),
    {
        self.buff.clear();
    }

    /// Returns how many bytes are staged.
    pub fn staged_len(&self) -> (r: usize)
        ensures
            r == self@.len(),
    {
        self.buff.len()
    }

    /// Whether a wanted delimiter is already staged: the condition under
    /// which a delimited receive can stop draining the device.
    pub fn contains_delimiter(&self, until: Option<u8>) -> (r: bool)
        ensures
            r == (until matches Some(d) && self@.contains(d)),
    {
        match until {
            None => false,
            Some(d) => position_of(&self.buff, d).is_some(),
        }
    }

    /// Collects all staged bytes; `None` when nothing is staged.
    pub fn collect_from_buff_everything(&mut self) -> (r: Option<Vec<u8>>)
        ensures
            match r {
                Some(v) => taken_by_collect(old(self)@, CollectKind::Everything) == Some(v@),
                None => taken_by_collect(old(self)@, CollectKind::Everything) is None,
            },
            final(self)@ == left_by_collect(old(self)@, CollectKind::Everything),
    {
        if self.buff.is_empty() {
            return None;
        }
        let mut data: Vec<u8> = Vec::new();
        core::mem::swap(&mut self.buff, &mut data);
        Some(data)
    }

    /// Collects the first `count` staged bytes; the whole buffer when it
    /// holds no more than `count`; `None` when nothing is staged.
    pub fn collect_from_buff_count(&mut self, count: usize) -> (r: Option<Vec<u8>>)
        ensures
            old(self)@.len() == 0 ==> r is None && final(self)@ == old(self)@,
            0 < old(self)@.len() <= count ==> (r matches Some(v) && v@ == old(self)@)
                && final(self)@ == Seq::<u8>::empty(),
            old(self)@.len() > count ==> (r matches Some(v) && v@ == old(self)@.take(count as int))
                && final(self)@ == old(self)@.skip(count as int),
    {
        if self.buff.is_empty() {
            return None;
        }
        if self.buff.len() <= count {
            return self.collect_from_buff_everything();
        }
        let mut data = self.buff.split_off(count);
        core::mem::swap(&mut self.buff, &mut data);
        proof {
            assert(old(self)@.take(count as int) =~= old(self)@.subrange(0, count as int));
            assert(old(self)@.skip(count as int) =~= old(self)@.subrange(
                count as int,
                old(self)@.len() as int,
            ));
        }
        Some(data)
    }

    /// Collects from the staging buffer under the given policy.
    pub fn collect_from_buff(&mut self, collect: CollectKind) -> (r: Option<Vec<u8>>)
        ensures
            match r {
                Some(v) => taken_by_collect(old(self)@, collect) == Some(v@),
                None => taken_by_collect(old(self)@, collect) is None,
            },
            final(self)@ == left_by_collect(old(self)@, collect),
    {
        if self.buff.is_empty() {
            proof {
                match collect {
                    CollectKind::UntilOrEverything(d) => {
                        self@.index_of_first_ensures(d);
                        assert(self@ =~= Seq::<u8>::empty());
                    },
                    CollectKind::UntilOrNothing(d) => {
                        self@.index_of_first_ensures(d);
                    },
                    CollectKind::Everything => {},
                }
            }
            return None;
        }
        match collect {
            CollectKind::Everything => self.collect_from_buff_everything(),
            CollectKind::UntilOrEverything(delimiter) => {
                match position_of(&self.buff, delimiter) {
                    Some(pos) => {
                        let ln: usize = self.buff.len();
                        assert(pos < ln);
                        let r = self.collect_from_buff_count(pos + 1);
                        proof {
                            lemma_take_all(old(self)@, pos + 1);
                        }
                        r
                    },
                    None => self.collect_from_buff_everything(),
                }
            },
            CollectKind::UntilOrNothing(delimiter) => {
                match position_of(&self.buff, delimiter) {
                    Some(pos) => {
                        let ln: usize = self.buff.len();
                        assert(pos < ln);
                        let r = self.collect_from_buff_count(pos + 1);
                        proof {
                            lemma_take_all(old(self)@, pos + 1);
                        }
                        r
                    },
                    None => None,
                }
            },
        }
    }

    /// The fast path of a receive with a delimiter: when the delimiter is
    /// already staged, slice off through and including it and reply at
    /// once, without touching the device. Without a delimiter, or when it
    /// is not staged, nothing is taken and the device must be drained.
    pub fn receive_fast_path(&mut self, until: Option<u8>) -> (r: Option<Vec<u8>>)
        ensures
            until is None ==> r is None && final(self)@ == old(self)@,
            until matches Some(d) ==> {
                &&& match r {
                    Some(v) => taken_by_collect(old(self)@, CollectKind::UntilOrNothing(d))
                        == Some(v@),
                    None => taken_by_collect(old(self)@, CollectKind::UntilOrNothing(d)) is None,
                }
                &&& final(self)@ == left_by_collect(old(self)@, CollectKind::UntilOrNothing(d))
            },
    {
        match until {
            None => None,
            Some(delimiter) => self.collect_from_buff(CollectKind::UntilOrNothing(delimiter)),
        }
    }

    /// The collection a receive performs after the device has been
    /// drained: everything without a delimiter, through the delimiter or
    /// everything with one; `None` when nothing is staged.
    pub fn collect_received(&mut self, until: Option<u8>) -> (r: Option<Vec<u8>>)
        ensures
            match r {
                Some(v) => taken_by_collect(old(self)@, kind_for_receive(until)) == Some(v@),
                None => taken_by_collect(old(self)@, kind_for_receive(until)) is None,
            },
            final(self)@ == left_by_collect(old(self)@, kind_for_receive(until)),
    {
        match until {
            None => self.collect_from_buff(CollectKind::Everything),
            Some(delimiter) => self.collect_from_buff(CollectKind::UntilOrEverything(delimiter)),
        }
    }
}

/// Taking a prefix as long as the sequence takes the whole sequence, and
/// skipping it leaves nothing.
proof fn lemma_take_all(s: Seq<u8>, n: int)
    requires
        0 <= n <= s.len(),
    ensures
        n == s.len() ==> s.take(n) =~= s,
        n == s.len() ==> s.skip(n) =~= Seq::<u8>::empty(),
{
    if n == s.len() {
        assert(s.take(n) =~= s);
        assert(s.skip(n) =~= Seq::<u8>::empty());
    }
}

/// Law: collection never loses, duplicates or reorders bytes. What a
/// receive hands out, concatenated with what stays staged, is exactly
/// what was staged — so the results of successive receives concatenate
/// to the on-wire arrival order of the bytes.
pub proof fn lemma_collect_preserves_stream(s: Seq<u8>, k: CollectKind)
    ensures
        match taken_by_collect(s, k) {
            Some(t) => t + left_by_collect(s, k) == s,
            None => left_by_collect(s, k) == s,
        },
{
    match k {
        CollectKind::Everything => {
            if s.len() > 0 {
                assert(s + Seq::<u8>::empty() =~= s);
            }
        },
        CollectKind::UntilOrEverything(d) => {
            s.index_of_first_ensures(d);
            if s.len() > 0 {
                match s.index_of_first(d) {
                    Some(i) => {
                        assert(s.take(i + 1) + s.skip(i + 1) =~= s);
                    },
                    None => {
                        assert(s + Seq::<u8>::empty() =~= s);
                    },
                }
            }
        },
        CollectKind::UntilOrNothing(d) => {
            s.index_of_first_ensures(d);
            match s.index_of_first(d) {
                Some(i) => {
                    assert(s.take(i + 1) + s.skip(i + 1) =~= s);
                },
                None => {},
            }
        },
    }
}

/// Law: a cleared staging buffer yields no payload on the next receive,
/// whatever its delimiter, while the peer stays idle.
pub proof fn lemma_empty_staging_yields_none(until: Option<u8>)
    ensures
        taken_by_collect(Seq::<u8>::empty(), kind_for_receive(until)) is None,
        left_by_collect(Seq::<u8>::empty(), kind_for_receive(until)) == Seq::<u8>::empty(),
{
    match until {
        None => {},
        Some(d) => {
            Seq::<u8>::empty().index_of_first_ensures(d);
        },
    }
}

/// Law: a delimiter-less receive hands out the whole staging buffer, so
/// once a transmitted payload has been echoed back and staged, the next
/// receive yields exactly that payload and leaves nothing staged.
pub proof fn lemma_receive_everything(b: Seq<u8>)
    requires
        b.len() > 0,
    ensures
        taken_by_collect(b, CollectKind::Everything) == Some(b),
        left_by_collect(b, CollectKind::Everything) == Seq::<u8>::empty(),
{
}

/// Law: when the staged bytes are a payload free of the delimiter `d`
/// followed by `d` itself, a delimited receive yields exactly payload
/// and delimiter and leaves the staging buffer empty — on the fast path
/// and after a drain alike.
pub proof fn lemma_delimited_round_trip(b: Seq<u8>, d: u8)
    requires
        !b.contains(d),
    ensures
        taken_by_collect(b.push(d), CollectKind::UntilOrEverything(d)) == Some(b.push(d)),
        left_by_collect(b.push(d), CollectKind::UntilOrEverything(d)) == Seq::<u8>::empty(),
        taken_by_collect(b.push(d), CollectKind::UntilOrNothing(d)) == Some(b.push(d)),
        left_by_collect(b.push(d), CollectKind::UntilOrNothing(d)) == Seq::<u8>::empty(),
{
    let s = b.push(d);
    s.index_of_first_ensures(d);
    assert(s[b.len() as int] == d);
    match s.index_of_first(d) {
        Some(i) => {
            if i < b.len() {
                assert(b[i] == d);
                assert(false);
            }
            assert(i == b.len());
            assert(s.take(i + 1) =~= s);
            assert(s.skip(i + 1) =~= Seq::<u8>::empty());
        },
        None => {
            assert(false);
        },
    }
}

/// Law: the collection after a drain differs from the fast path on
/// purpose. When the delimiter never arrived but bytes are staged, the
/// caller who already spent a syscall budget receives everything staged,
/// while the fast path — which decides whether to spend that budget —
/// hands out nothing.
pub proof fn lemma_post_drain_policy(s: Seq<u8>, d: u8)
    requires
        s.len() > 0,
        !s.contains(d),
    ensures
        taken_by_collect(s, CollectKind::UntilOrEverything(d)) == Some(s),
        taken_by_collect(s, CollectKind::UntilOrNothing(d)) is None,
{
    s.index_of_first_ensures(d);
}

/// Law: when the delimiter is already staged, the fast path of a receive
/// yields a payload — the request is answered synchronously, without
/// polling the device.
pub proof fn lemma_fast_path_hit(s: Seq<u8>, d: u8)
    requires
        s.contains(d),
    ensures
        taken_by_collect(s, CollectKind::UntilOrNothing(d)) is Some,
{
    s.index_of_first_ensures(d);
}

} // verus!
