use vstd::prelude::*;

use crate::fps::{fps_text_milli, parse_fps_from_string, sat};
use crate::urls::{join_url, joined};
use url::Url;

verus! {

/// Picture size of a variant, in pixels.
#[derive(Clone, Copy, Debug)]
pub struct Resolution {
    pub width: u64,
    pub height: u64,
}

/// One rendition listed by a master playlist.
#[derive(Debug)]
pub struct VariantStream {
    /// Location of the rendition's media playlist, usually relative.
    pub uri: String,
    pub resolution: Option<Resolution>,
    /// The declared frame rate, in thousandths of a frame per second.
    pub frame_rate_milli: Option<u64>,
    /// Attributes outside the standard set, as name and value.
    pub other_attributes: Vec<(String, String)>,
}

#[derive(Debug)]
pub struct MasterPlaylist {
    pub variants: Vec<VariantStream>,
}

/// One segment of a media playlist.
#[derive(Debug)]
pub struct MediaSegment {
    pub uri: String,
    /// Whether the segment declares an initialization map.
    pub has_map: bool,
}

#[derive(Debug)]
pub struct MediaPlaylist {
    pub segments: Vec<MediaSegment>,
    /// Set when the playlist announces that no segment will follow.
    pub end_list: bool,
}

#[derive(Debug)]
pub enum Playlist {
    MasterPlaylist(MasterPlaylist),
    MediaPlaylist(MediaPlaylist),
}

pub open spec fn area(v: VariantStream) -> nat {
    match v.resolution {
        Some(r) => r.width as nat * r.height as nat,
        None => 0,
    }
}

pub open spec fn name_key() -> Seq<char> {
    seq!['N', 'A', 'M', 'E']
}

/// The value of the first attribute named `NAME`.
pub open spec fn name_value(attrs: Seq<(String, String)>) -> Option<Seq<char>>
    decreases attrs.len(),
{
    if attrs.len() == 0 {
        None
    } else if attrs[0].0@ == name_key() {
        Some(attrs[0].1@)
    } else {
        name_value(attrs.subrange(1, attrs.len() as int))
    }
}

/// A variant's frame rate in thousandths: the declared one when positive, else
/// the one that its `NAME` attribute carries, else zero.
pub open spec fn frame_rate_of(v: VariantStream) -> u64 {
    if v.frame_rate_milli is Some && v.frame_rate_milli.unwrap() > 0 {
        v.frame_rate_milli.unwrap()
    } else {
        match name_value(v.other_attributes@) {
            Some(n) => match fps_text_milli(n) {
                Some(f) => sat(f),
                None => 0,
            },
            None => 0,
        }
    }
}

/// `a` ranks strictly above `b`: a larger picture, or the same area at a
/// higher frame rate.
pub open spec fn ranks_above(a: VariantStream, b: VariantStream) -> bool {
    area(a) > area(b) || (area(a) == area(b) && frame_rate_of(a) > frame_rate_of(b))
}

/// `k` is the last of the highest-ranked variants.
pub open spec fn is_best_index(vs: Seq<VariantStream>, k: int) -> bool {
    &&& 0 <= k < vs.len()
    &&& forall|j: int| 0 <= j < vs.len() ==> !ranks_above(#[trigger] vs[j], vs[k])
    &&& forall|j: int| k < j < vs.len() ==> ranks_above(vs[k], #[trigger] vs[j])
}

/// True iff some segment declares an initialization map.
pub open spec fn is_fragmented(p: MediaPlaylist) -> bool {
    exists|i: int| 0 <= i < p.segments@.len() && (#[trigger] p.segments@[i]).has_map
}

fn is_name_key(k: &str) -> (r: bool)
    ensures
        r == (k@ == name_key()),
{
    let key = "NAME";
    proof {
        reveal_strlit("NAME");
    }
    assert(key@ =~= name_key());
    if k.unicode_len() != 4 {
        return false;
    }
    assert(k@.subrange(0, 4) =~= k@);
    crate::text::matches_at(k, key, 0)
}

fn find_name(attrs: &Vec<(String, String)>) -> (r: Option<&String>)
    ensures
        match r {
            Some(s) => name_value(attrs@) == Some(s@),
            None => name_value(attrs@) is None,
        },
{
    let mut i: usize = 0;
    assert(attrs@.subrange(0, attrs@.len() as int) =~= attrs@);
    while i < attrs.len()
        invariant
            i <= attrs@.len(),
            name_value(attrs@) == name_value(attrs@.subrange(i as int, attrs@.len() as int)),
        decreases attrs.len() - i,
    {
        let ghost rest = attrs@.subrange(i as int, attrs@.len() as int);
        assert(rest[0] == attrs@[i as int]);
        if is_name_key(attrs[i].0.as_str()) {
            return Some(&attrs[i].1);
        }
        assert(rest.subrange(1, rest.len() as int) =~= attrs@.subrange(i + 1, attrs@.len() as int));
        i = i + 1;
    }
    None
}

/// A variant's frame rate, in thousandths of a frame per second.
pub fn extract_frame_rate(variant: &VariantStream) -> (r: u64)
    ensures
        r == frame_rate_of(*variant),
{
    if let Some(f) = variant.frame_rate_milli {
        if f > 0 {
            return f;
        }
    }
    match find_name(&variant.other_attributes) {
        Some(name) => match parse_fps_from_string(name.as_str()) {
            Some(f) => f,
            None => 0,
        },
        None => 0,
    }
}

fn area_of(v: &VariantStream) -> (r: u128)
    ensures
        r == area(*v),
{
    match v.resolution {
        Some(res) => {
            assert(res.width as nat * res.height as nat <= u64::MAX as nat * u64::MAX as nat)
                by (nonlinear_arith)
                requires
                    res.width <= u64::MAX,
                    res.height <= u64::MAX,
            ;
            (res.width as u128) * (res.height as u128)
        },
        None => 0,
    }
}

/// Index of the best variant: the largest picture, then the highest frame
/// rate; the last one among equals. `None` only when there is no variant.
pub fn best_variant_index(variants: &Vec<VariantStream>) -> (r: Option<usize>)
    ensures
        r is None <==> variants@.len() == 0,
        r matches Some(k) ==> is_best_index(variants@, k as int),
{
    let n = variants.len();
    if n == 0 {
        return None;
    }
    let mut best: usize = 0;
    let mut best_area = area_of(&variants[0]);
    let mut best_fps = extract_frame_rate(&variants[0]);
    let mut i: usize = 1;
    while i < n
        invariant
            n == variants@.len(),
            1 <= i <= n,
            best < i,
            best_area == area(variants@[best as int]),
            best_fps == frame_rate_of(variants@[best as int]),
            forall|j: int| 0 <= j < i ==> !ranks_above(#[trigger] variants@[j], variants@[best as int]),
            forall|j: int| best < j < i ==> ranks_above(variants@[best as int], #[trigger] variants@[j]),
        decreases n - i,
    {
        let a = area_of(&variants[i]);
        let f = extract_frame_rate(&variants[i]);
        if !(best_area > a || (best_area == a && best_fps > f)) {
            best = i;
            best_area = a;
            best_fps = f;
        }
        i = i + 1;
    }
    Some(best)
}

/// True iff the playlist's segments are fragmented: some segment declares an
/// initialization map.
pub fn is_fmp4_playlist(playlist: &MediaPlaylist) -> (r: bool)
    ensures
        r == is_fragmented(*playlist),
{
    let mut i: usize = 0;
    while i < playlist.segments.len()
        invariant
            i <= playlist.segments@.len(),
            forall|j: int| 0 <= j < i ==> !(#[trigger] playlist.segments@[j]).has_map,
        decreases playlist.segments.len() - i,
    {
        if playlist.segments[i].has_map {
            return true;
        }
        i = i + 1;
    }
    false
}

/// The URL of the best variant (see `best_variant_index`), resolved against
/// `base_url`. `None` when there is no variant or the resolution fails.
pub fn select_best_variant(master: &MasterPlaylist, base_url: &Url) -> (r: Option<Url>)
    ensures
        master.variants@.len() == 0 ==> r is None,
        master.variants@.len() > 0 ==> exists|k: int|
            is_best_index(master.variants@, k) && r == joined(
                *base_url,
                #[trigger] master.variants@[k].uri@,
            ),
{
    match best_variant_index(&master.variants) {
        Some(k) => join_url(base_url, master.variants[k].uri.as_str()),
        None => None,
    }
}

} // verus!
