use vstd::prelude::*;

verus! {

/// Largest payload that one frame can carry: the length prefix is two bytes.
pub const MAX_FRAME_PAYLOAD: usize = 65535;

/// Length of the big-endian prefix in front of every frame.
pub const FRAME_HEADER_LEN: usize = 2;

/// The length that a two-byte big-endian prefix announces.
pub open spec fn prefix_len(b: Seq<u8>) -> int
    recommends
        b.len() >= 2,
{
    (b[0] as int) * 256 + (b[1] as int)
}

/// The frame of one datagram: its length, high byte first, then its bytes.
pub open spec fn frame_of(p: Seq<u8>) -> Seq<u8> {
    seq![(p.len() / 256) as u8, (p.len() % 256) as u8] + p
}

/// The frames of a sequence of datagrams, one after the other.
pub open spec fn frames_of(ds: Seq<Seq<u8>>) -> Seq<u8>
    decreases ds.len(),
{
    if ds.len() == 0 {
        Seq::empty()
    } else {
        frame_of(ds[0]) + frames_of(ds.drop_first())
    }
}

/// A whole frame stands at the start of `b`.
pub open spec fn has_frame(b: Seq<u8>) -> bool {
    b.len() >= 2 && b.len() >= 2 + prefix_len(b)
}

/// The datagrams of all whole frames at the start of `b`, in order.
pub open spec fn datagrams_of(b: Seq<u8>) -> Seq<Seq<u8>>
    decreases b.len(),
{
    if has_frame(b) {
        seq![b.subrange(2, 2 + prefix_len(b))] + datagrams_of(
            b.subrange(2 + prefix_len(b), b.len() as int),
        )
    } else {
        Seq::empty()
    }
}

/// How many bytes of `b` the whole frames at its start take.
pub open spec fn framed_len(b: Seq<u8>) -> int
    decreases b.len(),
{
    if has_frame(b) {
        2 + prefix_len(b) + framed_len(b.subrange(2 + prefix_len(b), b.len() as int))
    } else {
        0
    }
}

/// Every datagram fits in one frame.
pub open spec fn all_fit(ds: Seq<Seq<u8>>) -> bool {
    forall|i: int| 0 <= i < ds.len() ==> #[trigger] ds[i].len() <= MAX_FRAME_PAYLOAD
}

/// Frames one datagram for the tunnel stream.
pub fn encode_datagram(payload: &[u8]) -> (r: Vec<u8>)
    requires
        payload@.len() <= MAX_FRAME_PAYLOAD,
    ensures
        r@ == frame_of(payload@),
{
    let n = payload.len();
    let mut r: Vec<u8> = Vec::with_capacity(n + FRAME_HEADER_LEN);
    r.push((n / 256) as u8);
    r.push((n % 256) as u8);
    let mut i: usize = 0;
    while i < n
        invariant
            n == payload@.len(),
            i <= n,
            r@ == seq![(n / 256) as u8, (n % 256) as u8] + payload@.subrange(0, i as int),
        decreases n - i,
    {
        r.push(payload[i]);
        i += 1;
        assert(payload@.subrange(0, i as int) == payload@.subrange(0, i - 1) + seq![payload@[i - 1]]);
    }
    assert(payload@.subrange(0, n as int) == payload@);
    r
}

/// Reads the frame at `start` in `buf`, if a whole one is there: its
/// datagram and the position just after it.
pub fn decode_datagram(buf: &[u8], start: usize) -> (r: Option<(Vec<u8>, usize)>)
    requires
        start <= buf@.len(),
    ensures
        r.is_some() == has_frame(buf@.subrange(start as int, buf@.len() as int)),
        r matches Some((p, next)) ==> {
            let rest = buf@.subrange(start as int, buf@.len() as int);
            &&& next == start + 2 + prefix_len(rest)
            &&& p@ == rest.subrange(2, 2 + prefix_len(rest))
        },
{
    let ghost rest = buf@.subrange(start as int, buf@.len() as int);
    if buf.len() - start < FRAME_HEADER_LEN {
        return None;
    }
    let len: usize = (buf[start] as usize) * 256 + (buf[start + 1] as usize);
    assert(len == prefix_len(rest));
    if buf.len() - start - FRAME_HEADER_LEN < len {
        return None;
    }
    let from = start + FRAME_HEADER_LEN;
    assert(from + len <= buf@.len());
    let mut p: Vec<u8> = Vec::with_capacity(len);
    let mut i: usize = 0;
    while i < len
        invariant
            from + len <= buf@.len(),
            buf@.len() <= usize::MAX,
            i <= len,
            p@ == buf@.subrange(from as int, from + i),
        decreases len - i,
    {
        p.push(buf[from + i]);
        i += 1;
        assert(buf@.subrange(from as int, from + i) == buf@.subrange(from as int, from + i - 1) + seq![buf@[from + i - 1]]);
    }
    assert(p@ == rest.subrange(2, 2 + prefix_len(rest)));
    Some((p, from + len))
}

proof fn lemma_rest_shift(b: Seq<u8>, start: int, k: int)
    requires
        0 <= start,
        0 <= k,
        start + k <= b.len(),
    ensures
        b.subrange(start, b.len() as int).subrange(k, b.len() - start) == b.subrange(start + k, b.len() as int),
{
    assert(b.subrange(start, b.len() as int).subrange(k, b.len() - start) =~= b.subrange(start + k, b.len() as int));
}

/// Splits the start of `buf` into the datagrams of its whole frames, and
/// says how many bytes those frames took; a trailing partial frame is left.
pub fn decode_datagrams(buf: &[u8]) -> (r: (Vec<Vec<u8>>, usize))
    ensures
        r.0@.len() == datagrams_of(buf@).len(),
        forall|i: int| 0 <= i < r.0@.len() ==> #[trigger] r.0@[i]@ == datagrams_of(buf@)[i],
        r.1 == framed_len(buf@),
{
    let mut out: Vec<Vec<u8>> = Vec::new();
    let mut pos: usize = 0;
    let ghost n = buf@.len();
    assert(buf@.subrange(0, n as int) == buf@);
    loop
        invariant
            pos <= buf@.len(),
            n == buf@.len(),
            out@.len() + datagrams_of(buf@.subrange(pos as int, n as int)).len() == datagrams_of(buf@).len(),
            forall|i: int| 0 <= i < out@.len() ==> #[trigger] out@[i]@ == datagrams_of(buf@)[i],
            forall|i: int| 0 <= i < datagrams_of(buf@.subrange(pos as int, n as int)).len() ==>
                #[trigger] datagrams_of(buf@.subrange(pos as int, n as int))[i] == datagrams_of(buf@)[out@.len() + i],
            pos + framed_len(buf@.subrange(pos as int, n as int)) == framed_len(buf@),
        ensures
            pos <= buf@.len(),
            out@.len() == datagrams_of(buf@).len(),
            forall|i: int| 0 <= i < out@.len() ==> #[trigger] out@[i]@ == datagrams_of(buf@)[i],
            pos == framed_len(buf@),
        decreases n - pos,
    {
        let ghost rest = buf@.subrange(pos as int, n as int);
        match decode_datagram(buf, pos) {
            None => {
                assert(datagrams_of(rest).len() == 0);
                assert(framed_len(rest) == 0);
                break;
            },
            Some((p, next)) => {
                let ghost k = 2 + prefix_len(rest);
                proof {
                    lemma_rest_shift(buf@, pos as int, k as int);
                    let tail = buf@.subrange(next as int, n as int);
                    assert(datagrams_of(rest) == seq![p@] + datagrams_of(tail));
                    assert(datagrams_of(rest)[0] == p@);
                    assert forall|i: int| 0 <= i < datagrams_of(tail).len() implies
                        #[trigger] datagrams_of(tail)[i] == datagrams_of(buf@)[out@.len() + 1 + i] by {
                        assert(datagrams_of(tail)[i] == datagrams_of(rest)[i + 1]);
                    }
                }
                out.push(p);
                pos = next;
            },
        }
    }
    (out, pos)
}

/// Frame preservation: datagrams framed one after the other on one side are
/// read back on the other side as the same datagrams, same sizes, same order,
/// and the frames are consumed exactly.
pub proof fn lemma_frames_round_trip(ds: Seq<Seq<u8>>)
    requires
        all_fit(ds),
    ensures
        datagrams_of(frames_of(ds)) == ds,
        framed_len(frames_of(ds)) == frames_of(ds).len(),
    decreases ds.len(),
{
    if ds.len() == 0 {
        assert(!has_frame(frames_of(ds)));
        assert(datagrams_of(frames_of(ds)) =~= ds);
    } else {
        let d = ds[0];
        let tail = ds.drop_first();
        assert(d.len() <= MAX_FRAME_PAYLOAD);
        assert forall|i: int| 0 <= i < tail.len() implies #[trigger] tail[i].len() <= MAX_FRAME_PAYLOAD by {
            assert(tail[i] == ds[i + 1]);
        }
        lemma_frames_round_trip(tail);
        let b = frames_of(ds);
        let l = d.len() as int;
        assert(b == frame_of(d) + frames_of(tail));
        assert(b[0] == (l / 256) as u8);
        assert(b[1] == (l % 256) as u8);
        assert(prefix_len(b) == l);
        assert(has_frame(b));
        assert(b.subrange(2, 2 + l) =~= d);
        assert(b.subrange(2 + l, b.len() as int) =~= frames_of(tail));
        assert(datagrams_of(b) =~= seq![d] + tail);
        assert(seq![d] + tail =~= ds);
    }
}

} // verus!
