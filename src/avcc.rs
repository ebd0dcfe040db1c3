use vstd::prelude::*;

verus! {

/// Reads `count` length-prefixed parameter sets from `pos` on: each is a
/// big-endian 16-bit length and that many bytes. Gives the position after
/// them and the last one read (`last` when there is none), or `None` when a
/// set runs past the end.
pub open spec fn walk_sets(extra: Seq<u8>, pos: int, count: nat, last: Seq<u8>) -> Option<
    (int, Seq<u8>),
>
    decreases count,
{
    if count == 0 {
        Some((pos, last))
    } else if pos + 2 > extra.len() {
        None
    } else {
        let len = extra[pos] as int * 256 + extra[pos + 1] as int;
        if pos + 2 + len > extra.len() {
            None
        } else {
            walk_sets(
                extra,
                pos + 2 + len,
                (count - 1) as nat,
                extra.subrange(pos + 2, pos + 2 + len),
            )
        }
    }
}

/// The last SPS and the last PPS of an AVC decoder configuration record, when
/// the record is whole and both are present and non-empty.
pub open spec fn avcc_sets(extra: Seq<u8>) -> Option<(Seq<u8>, Seq<u8>)> {
    if extra.len() < 8 {
        None
    } else {
        match walk_sets(extra, 6, (extra[5] & 0x1f) as nat, Seq::empty()) {
            None => None,
            Some((p, sps)) => if p >= extra.len() {
                None
            } else {
                match walk_sets(extra, p + 1, extra[p] as nat, Seq::empty()) {
                    None => None,
                    Some((_, pps)) => if sps.len() > 0 && pps.len() > 0 {
                        Some((sps, pps))
                    } else {
                        None
                    },
                }
            },
        }
    }
}

fn copy_range(extra: &[u8], from: usize, to: usize) -> (r: Vec<u8>)
    requires
        from <= to <= extra@.len(),
    ensures
        r@ == extra@.subrange(from as int, to as int),
{
    let mut out: Vec<u8> = Vec::new();
    let mut i: usize = from;
    while i < to
        invariant
            from <= i <= to <= extra@.len(),
            out@ == extra@.subrange(from as int, i as int),
        decreases to - i,
    {
        out.push(extra[i]);
        i = i + 1;
        assert(out@ =~= extra@.subrange(from as int, i as int));
    }
    out
}

fn read_sets(extra: &[u8], pos: usize, count: usize) -> (r: Option<(usize, Vec<u8>)>)
    requires
        pos <= extra@.len(),
    ensures
        match walk_sets(extra@, pos as int, count as nat, Seq::empty()) {
            None => r is None,
            Some((p, last)) => r matches Some((q, v)) && q == p && v@ == last,
        },
{
    let n = extra.len();
    let mut p: usize = pos;
    let mut left: usize = count;
    let mut last: Vec<u8> = Vec::new();
    while left > 0
        invariant
            n == extra@.len(),
            p <= n,
            walk_sets(extra@, pos as int, count as nat, Seq::empty()) == walk_sets(
                extra@,
                p as int,
                left as nat,
                last@,
            ),
        decreases left,
    {
        if 2 > n - p {
            return None;
        }
        let len: usize = (extra[p] as usize) * 256 + extra[p + 1] as usize;
        if len > n - p - 2 {
            return None;
        }
        last = copy_range(extra, p + 2, p + 2 + len);
        p = p + 2 + len;
        left = left - 1;
    }
    Some((p, last))
}

/// The SPS and PPS carried by AVC decoder configuration bytes (the last of
/// each when there are several), or `None` when the bytes are cut short or
/// either is missing or empty.
pub fn parse_avcc(extra: &[u8]) -> (r: Option<(Vec<u8>, Vec<u8>)>)
    ensures
        match avcc_sets(extra@) {
            None => r is None,
            Some((sps, pps)) => r matches Some((s, p)) && s@ == sps && p@ == pps,
        },
{
    let n = extra.len();
    if n < 8 {
        return None;
    }
    let num_sps = (extra[5] & 0x1f) as usize;
    let (pos, sps) = match read_sets(extra, 6, num_sps) {
        Some(found) => found,
        None => return None,
    };
    if pos >= n {
        return None;
    }
    let num_pps = extra[pos] as usize;
    let (_, pps) = match read_sets(extra, pos + 1, num_pps) {
        Some(found) => found,
        None => return None,
    };
    if sps.len() > 0 && pps.len() > 0 {
        Some((sps, pps))
    } else {
        None
    }
}

} // verus!
