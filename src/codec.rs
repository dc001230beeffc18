//! zstd compression of keyframes and delta tiles, and frame decoding on the viewer.
use vstd::prelude::*;
use crate::frame_processor::TileData;

verus! {

/// The zstd frame that compressing `data` at `level` produces.
pub uninterp spec fn zstd_compressed(data: Seq<u8>, level: i32) -> Seq<u8>;

/// What decompressing the zstd stream `data` produces, if it is well formed.
pub uninterp spec fn zstd_decompressed(data: Seq<u8>) -> Option<Seq<u8>>;

/// Relies on `zstd::stream::encode_all`: the compressed stream depends on the
/// data and the level alone. Reading from a slice into a `Vec`, it fails only
/// when memory runs out.
#[verifier::external_body]
fn zstd_encode(data: &[u8], level: i32) -> (r: Option<Vec<u8>>)
    ensures
        r is Some,
        r matches Some(c) ==> c@ == zstd_compressed(data@, level),
{
    zstd::stream::encode_all(data, level).ok()
}

/// Relies on `zstd::stream::decode_all`: what `encode_all` produced decodes
/// to the data that was compressed.
#[verifier::external_body]
fn zstd_decode(data: &[u8]) -> (r: Option<Vec<u8>>)
    ensures
        r matches Some(d) ==> zstd_decompressed(data@) == Some(d@),
        r is None ==> zstd_decompressed(data@) is None,
        r matches Some(d) ==> forall|x: Seq<u8>, l: i32| #[trigger]
            zstd_compressed(x, l) == data@ ==> d@ == x,
        r is None ==> forall|x: Seq<u8>, l: i32| #[trigger] zstd_compressed(x, l) != data@,
{
    zstd::stream::decode_all(data).ok()
}

/// How the bytes of a `ScreenFrame` are encoded.
#[derive(Debug, Clone, Copy, PartialEq, Eq, Structural)]
pub enum EncodingType {
    Raw,
    ZstdCompressed,
    H264,
    WebP,
}

/// Compresses a keyframe's RGB bytes at `level`.
pub fn compress_frame(rgb: &[u8], level: i32) -> (r: Option<Vec<u8>>)
    ensures
        r is Some,
        r matches Some(c) ==> c@ == zstd_compressed(rgb@, level),
{
    zstd_encode(rgb, level)
}

/// The same tile with other data.
pub open spec fn same_rect(a: TileData, b: TileData) -> bool {
    a.x == b.x && a.y == b.y && a.width == b.width && a.height == b.height
}

/// Compresses each tile's bytes on its own at `level`.
pub fn compress_tiles(tiles: &Vec<TileData>, level: i32) -> (r: Option<Vec<TileData>>)
    ensures
        r is Some,
        r matches Some(out) ==> {
            &&& out@.len() == tiles@.len()
            &&& forall|i: int|
                0 <= i < tiles@.len() ==> same_rect(#[trigger] out@[i], tiles@[i]) && out@[i].data@
                    == zstd_compressed(tiles@[i].data@, level)
        },
{
    let mut out: Vec<TileData> = Vec::new();
    let mut i: usize = 0;
    while i < tiles.len()
        invariant
            i <= tiles@.len(),
            out@.len() == i,
            forall|j: int|
                0 <= j < i ==> same_rect(#[trigger] out@[j], tiles@[j]) && out@[j].data@
                    == zstd_compressed(tiles@[j].data@, level),
        decreases tiles@.len() - i,
    {
        let t = &tiles[i];
        let data = match zstd_encode(t.data.as_slice(), level) {
            Some(c) => c,
            None => {
                return None;
            },
        };
        out.push(TileData { x: t.x, y: t.y, width: t.width, height: t.height, data });
        i = i + 1;
    }
    Some(out)
}

/// Decompresses each tile's bytes. Fails if one tile's data is not a zstd stream.
pub fn decompress_tiles(tiles: &Vec<TileData>) -> (r: Option<Vec<TileData>>)
    ensures
        r matches Some(out) ==> {
            &&& out@.len() == tiles@.len()
            &&& forall|i: int|
                0 <= i < tiles@.len() ==> same_rect(#[trigger] out@[i], tiles@[i])
                    && zstd_decompressed(tiles@[i].data@) == Some(out@[i].data@)
        },
        r is None ==> exists|i: int|
            0 <= i < tiles@.len() && zstd_decompressed(#[trigger] tiles@[i].data@) is None,
        r matches Some(out) ==> forall|i: int, x: Seq<u8>, l: i32|
            0 <= i < tiles@.len() && #[trigger] zstd_compressed(x, l) == tiles@[i].data@ ==> (
            #[trigger] out@[i]).data@ == x,
        r is None ==> exists|i: int|
            0 <= i < tiles@.len() && forall|x: Seq<u8>, l: i32| #[trigger] zstd_compressed(x, l)
                != (#[trigger] tiles@[i]).data@,
{
    let mut out: Vec<TileData> = Vec::new();
    let mut i: usize = 0;
    while i < tiles.len()
        invariant
            i <= tiles@.len(),
            out@.len() == i,
            forall|j: int|
                0 <= j < i ==> same_rect(#[trigger] out@[j], tiles@[j]) && zstd_decompressed(
                    tiles@[j].data@,
                ) == Some(out@[j].data@),
            forall|j: int, x: Seq<u8>, l: i32|
                0 <= j < i && #[trigger] zstd_compressed(x, l) == tiles@[j].data@ ==> (
                #[trigger] out@[j]).data@ == x,
        decreases tiles@.len() - i,
    {
        let t = &tiles[i];
        let data = match zstd_decode(t.data.as_slice()) {
            Some(d) => d,
            None => {
                return None;
            },
        };
        out.push(TileData { x: t.x, y: t.y, width: t.width, height: t.height, data });
        i = i + 1;
    }
    Some(out)
}

/// The RGB bytes of a `ScreenFrame`: raw bytes as they are, zstd data
/// decompressed; H.264 and WebP frames need a platform decoder, so none here.
pub fn decode_frame_data(data: &Vec<u8>, encoding: EncodingType) -> (r: Option<Vec<u8>>)
    ensures
        encoding == EncodingType::Raw ==> (r matches Some(d) && d@ == data@),
        encoding == EncodingType::ZstdCompressed ==> (r matches Some(d) ==> zstd_decompressed(
            data@,
        ) == Some(d@)) && (r is None ==> zstd_decompressed(data@) is None),
        encoding == EncodingType::ZstdCompressed ==> forall|x: Seq<u8>, l: i32| #[trigger]
            zstd_compressed(x, l) == data@ ==> (r matches Some(d) && d@ == x),
        encoding == EncodingType::H264 || encoding == EncodingType::WebP ==> r is None,
{
    match encoding {
        EncodingType::Raw => Some(data.clone()),
        EncodingType::ZstdCompressed => zstd_decode(data.as_slice()),
        _ => None,
    }
}

} // verus!
