//! Tile-delta processing of packed 24-bit RGB frames.
//!
//! A frame of `w × h` pixels is `w * h * 3` bytes in row-major order. The
//! frame is cut into 64×64 tiles (clipped at the right and bottom edges);
//! a delta carries only the tiles that changed since the reference frame.
use vstd::prelude::*;

verus! {

/// Side of a square tile, in pixels.
pub const TILE_SIZE: u32 = 64;

/// Bytes per packed RGB pixel.
pub const BYTES_PER_PIXEL: usize = 3;

/// Number of bytes of a `w × h` RGB frame.
pub open spec fn frame_len(w: nat, h: nat) -> nat {
    w * h * 3
}

/// Byte offset of the first pixel of row `r` of a rectangle at `(x, y)`
/// inside a frame `fw` pixels wide.
pub open spec fn row_start(fw: nat, x: nat, y: nat, r: nat) -> nat {
    ((y + r) * fw + x) * 3
}

/// `f` with the bytes from `start` on replaced by `seg`.
pub open spec fn splice(f: Seq<u8>, start: int, seg: Seq<u8>) -> Seq<u8> {
    f.subrange(0, start) + seg + f.subrange(start + seg.len(), f.len() as int)
}

/// The first `r` rows of a `w`-pixel-wide rectangle at `(x, y)`, read out of `f`.
pub open spec fn tile_rows(f: Seq<u8>, fw: nat, x: nat, y: nat, w: nat, r: nat) -> Seq<u8>
    decreases r,
{
    if r == 0 {
        Seq::empty()
    } else {
        let s = row_start(fw, x, y, (r - 1) as nat) as int;
        tile_rows(f, fw, x, y, w, (r - 1) as nat) + f.subrange(s, s + w * 3)
    }
}

/// `f` with the first `r` rows of `data` written over a `w`-pixel-wide
/// rectangle at `(x, y)`.
pub open spec fn overlay_rows(
    f: Seq<u8>,
    fw: nat,
    x: nat,
    y: nat,
    w: nat,
    data: Seq<u8>,
    r: nat,
) -> Seq<u8>
    decreases r,
{
    if r == 0 {
        f
    } else {
        let prev = overlay_rows(f, fw, x, y, w, data, (r - 1) as nat);
        splice(
            prev,
            row_start(fw, x, y, (r - 1) as nat) as int,
            data.subrange(((r - 1) * w * 3) as int, (r * w * 3) as int),
        )
    }
}

/// A rectangular region of a frame and its RGB bytes.
#[derive(Debug, Clone)]
pub struct TileData {
    pub x: u32,
    pub y: u32,
    pub width: u32,
    pub height: u32,
    pub data: Vec<u8>,
}

impl TileData {
    /// The tile lies inside a `fw × fh` frame and holds one RGB triple per pixel.
    pub open spec fn fits(&self, fw: nat, fh: nat) -> bool {
        &&& self.x + self.width <= fw
        &&& self.y + self.height <= fh
        &&& self.data@.len() == self.width * self.height * 3
    }
}

/// `f` with tile `t` written over it.
pub open spec fn overlay_tile(f: Seq<u8>, fw: nat, t: TileData) -> Seq<u8> {
    overlay_rows(f, fw, t.x as nat, t.y as nat, t.width as nat, t.data@, t.height as nat)
}

/// `f` with each tile of `tiles` written over it, first to last.
pub open spec fn overlay_all(f: Seq<u8>, fw: nat, tiles: Seq<TileData>) -> Seq<u8>
    decreases tiles.len(),
{
    if tiles.len() == 0 {
        f
    } else {
        overlay_tile(overlay_all(f, fw, tiles.drop_last()), fw, tiles.last())
    }
}

/// Every tile of `tiles` fits a `fw × fh` frame.
pub open spec fn all_fit(tiles: Seq<TileData>, fw: nat, fh: nat) -> bool {
    forall|i: int| 0 <= i < tiles.len() ==> (#[trigger] tiles[i]).fits(fw, fh)
}

proof fn lemma_row_in_frame(fw: nat, fh: nat, x: nat, y: nat, w: nat, h: nat, r: nat)
    requires
        x + w <= fw,
        y + h <= fh,
        r < h,
    ensures
        (y + r) * fw + x + w <= fw * fh,
        row_start(fw, x, y, r) + w * 3 <= frame_len(fw, fh),
{
    assert((y + r + 1) * fw <= fh * fw) by (nonlinear_arith)
        requires
            y + r + 1 <= fh,
    ;
    assert((y + r + 1) * fw == (y + r) * fw + fw) by (nonlinear_arith);
    assert(fh * fw == fw * fh) by (nonlinear_arith);
    assert(((y + r) * fw + x) * 3 + w * 3 == ((y + r) * fw + x + w) * 3) by (nonlinear_arith);
    assert(((y + r) * fw + x + w) * 3 <= fw * fh * 3) by (nonlinear_arith)
        requires
            (y + r) * fw + x + w <= fw * fh,
    ;
}

proof fn lemma_row_in_tile(w: nat, h: nat, r: nat)
    requires
        r < h,
    ensures
        r * w * 3 + w * 3 == (r + 1) * w * 3,
        (r + 1) * w * 3 <= w * h * 3,
{
    assert(r * w * 3 + w * 3 == (r + 1) * w * 3) by (nonlinear_arith);
    assert((r + 1) * w * 3 <= h * w * 3) by (nonlinear_arith)
        requires
            r + 1 <= h,
    ;
    assert(h * w * 3 == w * h * 3) by (nonlinear_arith);
}

proof fn lemma_overlay_rows_len(
    f: Seq<u8>,
    fw: nat,
    fh: nat,
    x: nat,
    y: nat,
    w: nat,
    h: nat,
    data: Seq<u8>,
    r: nat,
)
    requires
        f.len() == frame_len(fw, fh),
        x + w <= fw,
        y + h <= fh,
        data.len() == w * h * 3,
        r <= h,
    ensures
        overlay_rows(f, fw, x, y, w, data, r).len() == f.len(),
    decreases r,
{
    if r > 0 {
        lemma_overlay_rows_len(f, fw, fh, x, y, w, h, data, (r - 1) as nat);
        lemma_row_in_frame(fw, fh, x, y, w, h, (r - 1) as nat);
        lemma_row_in_tile(w, h, (r - 1) as nat);
    }
}

/// Writes `tile` over `frame`, a `fw × fh` frame, row by row.
fn copy_tile_to_frame(frame: &mut Vec<u8>, fw: u32, fh: u32, tile: &TileData)
    requires
        old(frame)@.len() == frame_len(fw as nat, fh as nat),
        tile.fits(fw as nat, fh as nat),
    ensures
        final(frame)@ == overlay_tile(old(frame)@, fw as nat, *tile),
{
    if tile.height == 0 {
        return;
    }
    let ghost f0 = frame@;
    let flen: usize = frame.len();
    let dlen: usize = tile.data.len();
    assert(tile.width * 3 <= tile.width * tile.height * 3) by (nonlinear_arith)
        requires
            tile.height >= 1,
    ;
    let w3: usize = (tile.width as usize) * 3;
    let mut r: u32 = 0;
    while r < tile.height
        invariant
            r <= tile.height,
            flen == f0.len(),
            dlen == tile.data@.len(),
            tile.fits(fw as nat, fh as nat),
            f0.len() == frame_len(fw as nat, fh as nat),
            w3 == tile.width * 3,
            frame@ == overlay_rows(
                f0,
                fw as nat,
                tile.x as nat,
                tile.y as nat,
                tile.width as nat,
                tile.data@,
                r as nat,
            ),
        decreases tile.height - r,
    {
        proof {
            lemma_overlay_rows_len(
                f0,
                fw as nat,
                fh as nat,
                tile.x as nat,
                tile.y as nat,
                tile.width as nat,
                tile.height as nat,
                tile.data@,
                r as nat,
            );
            lemma_row_in_frame(
                fw as nat,
                fh as nat,
                tile.x as nat,
                tile.y as nat,
                tile.width as nat,
                tile.height as nat,
                r as nat,
            );
            lemma_row_in_tile(tile.width as nat, tile.height as nat, r as nat);
        }
        let ghost cur = frame@;
        assert(frame_len(fw as nat, fh as nat) == (fw * fh) * 3);
        let row: usize = (tile.y + r) as usize;
        let start: usize = (row * (fw as usize) + tile.x as usize) * 3;
        assert((r as nat) * (tile.width * 3) == r * tile.width * 3) by (nonlinear_arith);
        let toff: usize = (r as usize) * w3;
        let mut j: usize = 0;
        while j < w3
            invariant
                j <= w3,
                start + w3 <= cur.len(),
                cur.len() == flen,
                tile.data@.len() == dlen,
                toff + w3 <= tile.data@.len(),
                frame@ == cur.subrange(0, start as int) + tile.data@.subrange(
                    toff as int,
                    toff + j,
                ) + cur.subrange(start + j, cur.len() as int),
            decreases w3 - j,
        {
            frame.set(start + j, tile.data[toff + j]);
            j = j + 1;
            assert(frame@ =~= cur.subrange(0, start as int) + tile.data@.subrange(
                toff as int,
                toff + j,
            ) + cur.subrange(start + j, cur.len() as int));
        }
        r = r + 1;
        assert(toff == (r - 1) * tile.width * 3);
        assert(frame@ =~= overlay_rows(
            f0,
            fw as nat,
            tile.x as nat,
            tile.y as nat,
            tile.width as nat,
            tile.data@,
            r as nat,
        ));
    }
}

/// The tiles across a frame `fw` pixels wide: `ceil(fw / 64)`.
pub open spec fn tiles_across(fw: nat) -> nat {
    (fw + 63) / 64
}

/// Number of tiles in the grid of a `fw × fh` frame.
pub open spec fn tile_count(fw: nat, fh: nat) -> nat {
    tiles_across(fw) * tiles_across(fh)
}

/// `min(64, n)`: a tile's extent where `n` pixels remain.
pub open spec fn clip(n: nat) -> nat {
    if n < 64 {
        n
    } else {
        64
    }
}

/// The rectangle `(x, y, w, h)` of tile `k` of the grid, in row-major order.
pub open spec fn grid_rect(fw: nat, fh: nat, k: nat) -> (nat, nat, nat, nat) {
    let x = (k % tiles_across(fw)) * 64;
    let y = (k / tiles_across(fw)) * 64;
    (x, y, clip((fw - x) as nat), clip((fh - y) as nat))
}

/// The RGB triple at pixel `(px, py)` differs between the two frames.
pub open spec fn pixel_differs(prev: Seq<u8>, curr: Seq<u8>, fw: nat, px: nat, py: nat) -> bool {
    let o = ((py * fw + px) * 3) as int;
    prev.subrange(o, o + 3) != curr.subrange(o, o + 3)
}

/// A tile counts as changed when one of five sampled pixels differs: its
/// four corners and its centre.
pub open spec fn tile_changed(prev: Seq<u8>, curr: Seq<u8>, fw: nat, r: (nat, nat, nat, nat)) -> bool {
    let (x, y, w, h) = r;
    ||| pixel_differs(prev, curr, fw, x, y)
    ||| pixel_differs(prev, curr, fw, (x + w - 1) as nat, y)
    ||| pixel_differs(prev, curr, fw, x, (y + h - 1) as nat)
    ||| pixel_differs(prev, curr, fw, (x + w - 1) as nat, (y + h - 1) as nat)
    ||| pixel_differs(prev, curr, fw, x + w / 2, y + h / 2)
}

/// The changed tiles among the first `k` tiles of the grid, in grid order.
pub open spec fn changed_upto(prev: Seq<u8>, curr: Seq<u8>, fw: nat, fh: nat, k: nat) -> Seq<
    (nat, nat, nat, nat),
>
    decreases k,
{
    if k == 0 {
        Seq::empty()
    } else {
        let r = grid_rect(fw, fh, (k - 1) as nat);
        let before = changed_upto(prev, curr, fw, fh, (k - 1) as nat);
        if tile_changed(prev, curr, fw, r) {
            before.push(r)
        } else {
            before
        }
    }
}

/// The changed tiles of the whole grid, in row-major order.
pub open spec fn changed_rects(prev: Seq<u8>, curr: Seq<u8>, fw: nat, fh: nat) -> Seq<
    (nat, nat, nat, nat),
> {
    changed_upto(prev, curr, fw, fh, tile_count(fw, fh))
}

/// More than 60% of the grid's tiles changed.
pub open spec fn promotes_to_keyframe(prev: Seq<u8>, curr: Seq<u8>, fw: nat, fh: nat) -> bool {
    changed_rects(prev, curr, fw, fh).len() * 10 > tile_count(fw, fh) * 6
}

/// The rectangle of a tile.
pub open spec fn rect_of(t: TileData) -> (nat, nat, nat, nat) {
    (t.x as nat, t.y as nat, t.width as nat, t.height as nat)
}

/// The tile holds the bytes of `curr` under its rectangle.
pub open spec fn cut_from(t: TileData, curr: Seq<u8>, fw: nat) -> bool {
    t.data@ == tile_rows(curr, fw, t.x as nat, t.y as nat, t.width as nat, t.height as nat)
}

/// `tiles` are exactly the changed tiles of `curr` against `prev`, cut from `curr`.
pub open spec fn is_delta_of(tiles: Seq<TileData>, prev: Seq<u8>, curr: Seq<u8>, fw: nat, fh: nat) -> bool {
    &&& tiles.map_values(|t: TileData| rect_of(t)) == changed_rects(prev, curr, fw, fh)
    &&& forall|i: int| 0 <= i < tiles.len() ==> cut_from(#[trigger] tiles[i], curr, fw)
    &&& all_fit(tiles, fw, fh)
}

proof fn lemma_tile_rows_len(f: Seq<u8>, fw: nat, fh: nat, x: nat, y: nat, w: nat, h: nat, r: nat)
    requires
        f.len() == frame_len(fw, fh),
        x + w <= fw,
        y + h <= fh,
        r <= h,
    ensures
        tile_rows(f, fw, x, y, w, r).len() == r * w * 3,
    decreases r,
{
    if r > 0 {
        lemma_tile_rows_len(f, fw, fh, x, y, w, h, (r - 1) as nat);
        lemma_row_in_frame(fw, fh, x, y, w, h, (r - 1) as nat);
        lemma_row_in_tile(w, h, (r - 1) as nat);
    } else {
        assert(r * w * 3 == 0) by (nonlinear_arith)
            requires
                r == 0,
        ;
    }
}

proof fn lemma_grid_rect_fits(fw: nat, fh: nat, k: nat)
    requires
        k < tile_count(fw, fh),
    ensures
        grid_rect(fw, fh, k).0 < fw,
        grid_rect(fw, fh, k).1 < fh,
        grid_rect(fw, fh, k).0 + grid_rect(fw, fh, k).2 <= fw,
        grid_rect(fw, fh, k).1 + grid_rect(fw, fh, k).3 <= fh,
        1 <= grid_rect(fw, fh, k).2 <= 64,
        1 <= grid_rect(fw, fh, k).3 <= 64,
{
    let tw = tiles_across(fw);
    let th = tiles_across(fh);
    assert(tw > 0 && th > 0) by (nonlinear_arith)
        requires
            k < tw * th,
    ;
    let tx = k % tw;
    let ty = k / tw;
    assert(tx < tw) by (nonlinear_arith)
        requires
            tw > 0,
            tx == k % tw,
    ;
    assert(ty < th) by (nonlinear_arith)
        requires
            tw > 0,
            ty == k / tw,
            k < tw * th,
    ;
    assert(tx * 64 < fw) by (nonlinear_arith)
        requires
            tx < tw,
            tw == (fw + 63) / 64,
    ;
    assert(ty * 64 < fh) by (nonlinear_arith)
        requires
            ty < th,
            th == (fh + 63) / 64,
    ;
}

/// Copies the bytes under a `w × h` rectangle at `(x, y)` out of a `fw × fh` frame.
fn extract_tile(frame: &Vec<u8>, fw: u32, fh: u32, x: u32, y: u32, w: u32, h: u32) -> (r: Vec<u8>)
    requires
        frame@.len() == frame_len(fw as nat, fh as nat),
        x + w <= fw,
        y + h <= fh,
    ensures
        r@ == tile_rows(frame@, fw as nat, x as nat, y as nat, w as nat, h as nat),
        r@.len() == w * h * 3,
{
    proof {
        lemma_tile_rows_len(frame@, fw as nat, fh as nat, x as nat, y as nat, w as nat, h as nat, h as nat);
        assert(h * w * 3 == w * h * 3) by (nonlinear_arith);
    }
    let mut out: Vec<u8> = Vec::new();
    let flen: usize = frame.len();
    let mut r: u32 = 0;
    while r < h
        invariant
            r <= h,
            x + w <= fw,
            y + h <= fh,
            flen == frame@.len(),
            frame@.len() == frame_len(fw as nat, fh as nat),
            out@ == tile_rows(frame@, fw as nat, x as nat, y as nat, w as nat, r as nat),
        decreases h - r,
    {
        proof {
            lemma_row_in_frame(fw as nat, fh as nat, x as nat, y as nat, w as nat, h as nat, r as nat);
        }
        assert(frame_len(fw as nat, fh as nat) == (fw * fh) * 3);
        let row: usize = (y + r) as usize;
        let start: usize = (row * (fw as usize) + x as usize) * 3;
        let end: usize = start + (w as usize) * 3;
        let mut i: usize = start;
        let ghost before = out@;
        while i < end
            invariant
                start <= i <= end,
                end <= frame@.len(),
                out@ == before + frame@.subrange(start as int, i as int),
            decreases end - i,
        {
            out.push(frame[i]);
            i = i + 1;
            assert(out@ =~= before + frame@.subrange(start as int, i as int));
        }
        r = r + 1;
    }
    out
}

/// Tells whether pixel `(px, py)` differs between two `fw × fh` frames.
fn pixel_differs_at(prev: &Vec<u8>, curr: &Vec<u8>, fw: u32, fh: u32, px: u32, py: u32) -> (r: bool)
    requires
        prev@.len() == frame_len(fw as nat, fh as nat),
        curr@.len() == frame_len(fw as nat, fh as nat),
        px < fw,
        py < fh,
    ensures
        r == pixel_differs(prev@, curr@, fw as nat, px as nat, py as nat),
{
    proof {
        lemma_row_in_frame(fw as nat, fh as nat, px as nat, py as nat, 1, 1, 0);
    }
    assert(frame_len(fw as nat, fh as nat) == (fw * fh) * 3);
    let plen: usize = prev.len();
    let o: usize = ((py as usize) * (fw as usize) + px as usize) * 3;
    let r = prev[o] != curr[o] || prev[o + 1] != curr[o + 1] || prev[o + 2] != curr[o + 2];
    let ghost a = prev@.subrange(o as int, o + 3);
    let ghost b = curr@.subrange(o as int, o + 3);
    proof {
        if r {
            if prev[o as int] != curr[o as int] {
                assert(a[0] != b[0]);
            } else if prev[o + 1] != curr[o + 1] {
                assert(a[1] != b[1]);
            } else {
                assert(a[2] != b[2]);
            }
        } else {
            assert(a =~= b);
        }
    }
    r
}

/// Samples the corners and the centre of a tile for a change.
fn is_tile_changed(
    prev: &Vec<u8>,
    curr: &Vec<u8>,
    fw: u32,
    fh: u32,
    x: u32,
    y: u32,
    w: u32,
    h: u32,
) -> (r: bool)
    requires
        prev@.len() == frame_len(fw as nat, fh as nat),
        curr@.len() == frame_len(fw as nat, fh as nat),
        x + w <= fw,
        y + h <= fh,
        w >= 1,
        h >= 1,
    ensures
        r == tile_changed(prev@, curr@, fw as nat, (x as nat, y as nat, w as nat, h as nat)),
{
    let right: u32 = x + (w - 1);
    let bottom: u32 = y + (h - 1);
    pixel_differs_at(prev, curr, fw, fh, x, y) || pixel_differs_at(prev, curr, fw, fh, right, y)
        || pixel_differs_at(prev, curr, fw, fh, x, bottom) || pixel_differs_at(
        prev,
        curr,
        fw,
        fh,
        right,
        bottom,
    ) || pixel_differs_at(prev, curr, fw, fh, x + w / 2, y + h / 2)
}

/// Cuts out, in row-major grid order, every tile of `curr` that changed
/// against `prev`.
fn find_changed_tiles(prev: &Vec<u8>, curr: &Vec<u8>, fw: u32, fh: u32) -> (r: Vec<TileData>)
    requires
        prev@.len() == frame_len(fw as nat, fh as nat),
        curr@.len() == frame_len(fw as nat, fh as nat),
    ensures
        is_delta_of(r@, prev@, curr@, fw as nat, fh as nat),
{
    let tw: u64 = ((fw as u64) + 63) / 64;
    let th: u64 = ((fh as u64) + 63) / 64;
    assert(tw * th <= 0x4000000 * 0x4000000) by (nonlinear_arith)
        requires
            tw <= 0x4000000,
            th <= 0x4000000,
    ;
    let n: u64 = tw * th;
    let mut out: Vec<TileData> = Vec::new();
    let mut k: u64 = 0;
    while k < n
        invariant
            k <= n,
            n == tile_count(fw as nat, fh as nat),
            tw == tiles_across(fw as nat),
            prev@.len() == frame_len(fw as nat, fh as nat),
            curr@.len() == frame_len(fw as nat, fh as nat),
            out@.map_values(|t: TileData| rect_of(t)) == changed_upto(
                prev@,
                curr@,
                fw as nat,
                fh as nat,
                k as nat,
            ),
            forall|i: int| 0 <= i < out@.len() ==> cut_from(#[trigger] out@[i], curr@, fw as nat),
            all_fit(out@, fw as nat, fh as nat),
        decreases n - k,
    {
        proof {
            lemma_grid_rect_fits(fw as nat, fh as nat, k as nat);
        }
        let ghost rect = grid_rect(fw as nat, fh as nat, k as nat);
        let x: u32 = ((k % tw) * 64) as u32;
        let y: u32 = ((k / tw) * 64) as u32;
        let w: u32 = if fw - x < 64 {
            fw - x
        } else {
            64
        };
        let h: u32 = if fh - y < 64 {
            fh - y
        } else {
            64
        };
        assert(rect == (x as nat, y as nat, w as nat, h as nat));
        let ghost before = out@;
        if is_tile_changed(prev, curr, fw, fh, x, y, w, h) {
            let data = extract_tile(curr, fw, fh, x, y, w, h);
            let t = TileData { x, y, width: w, height: h, data };
            out.push(t);
            proof {
                assert(out@.map_values(|t: TileData| rect_of(t)) =~= before.map_values(
                    |t: TileData| rect_of(t),
                ).push(rect));
                assert forall|i: int| 0 <= i < out@.len() implies cut_from(
                    #[trigger] out@[i],
                    curr@,
                    fw as nat,
                ) by {
                    if i < before.len() {
                        assert(out@[i] == before[i]);
                    }
                }
                assert forall|i: int| 0 <= i < out@.len() implies (#[trigger] out@[i]).fits(
                    fw as nat,
                    fh as nat,
                ) by {
                    if i < before.len() {
                        assert(out@[i] == before[i]);
                    }
                }
            }
        }
        k = k + 1;
    }
    out
}

/// Whether a frame stands alone or updates the previous one.
#[derive(Debug, Clone, Copy, PartialEq, Eq, Structural)]
pub enum FrameType {
    KeyFrame,
    DeltaFrame,
}

/// Failures of frame processing.
#[derive(Debug, Clone, Copy, PartialEq, Eq, Structural)]
pub enum FrameError {
    /// The frame's length is not `width * height * 3`.
    DimensionMismatch,
    /// A tile does not lie inside the frame, or its data has the wrong length.
    TileOutOfBounds,
}

/// A frame ready for encoding: the whole frame (keyframe) or its changed tiles (delta).
#[derive(Debug, Clone)]
pub struct ProcessedFrame {
    pub frame_type: FrameType,
    pub data: Vec<u8>,
    pub width: u32,
    pub height: u32,
    pub tiles: Option<Vec<TileData>>,
}

/// The frame a receiver holds after applying `p` to `cur`: a keyframe
/// replaces it, a delta writes its tiles over it, and a delta with no
/// frame to update leaves nothing.
pub open spec fn apply_spec(cur: Option<Seq<u8>>, fw: nat, p: ProcessedFrame) -> Option<Seq<u8>> {
    match p.frame_type {
        FrameType::KeyFrame => Some(p.data@),
        FrameType::DeltaFrame => match cur {
            Some(c) => Some(
                match p.tiles {
                    Some(ts) => overlay_all(c, fw, ts@),
                    None => c,
                },
            ),
            None => None,
        },
    }
}

/// Applies a run of frames, first to last.
pub open spec fn replay(cur: Option<Seq<u8>>, fw: nat, frames: Seq<ProcessedFrame>) -> Option<
    Seq<u8>,
>
    decreases frames.len(),
{
    if frames.len() == 0 {
        cur
    } else {
        apply_spec(replay(cur, fw, frames.drop_last()), fw, frames.last())
    }
}

/// `p` is what processing `frame`, a `fw × fh` frame, gives against the
/// reference `prev`: the first frame, a forced one, or one in which more than
/// 60% of the tiles changed goes whole; otherwise exactly its changed tiles go.
pub open spec fn processed(
    prev: Option<Seq<u8>>,
    fw: nat,
    fh: nat,
    frame: Seq<u8>,
    force_keyframe: bool,
    p: ProcessedFrame,
) -> bool {
    &&& p.width == fw
    &&& p.height == fh
    &&& match prev {
        None => p.frame_type == FrameType::KeyFrame,
        Some(r) => if force_keyframe || promotes_to_keyframe(r, frame, fw, fh) {
            p.frame_type == FrameType::KeyFrame
        } else {
            &&& p.frame_type == FrameType::DeltaFrame
            &&& p.data@.len() == 0
            &&& p.tiles matches Some(ts)
            &&& is_delta_of(ts@, r, frame, fw, fh)
        },
    }
    &&& p.frame_type == FrameType::KeyFrame ==> p.data@ == frame && p.tiles is None
}

/// Host-side frame differencing against the last frame sent.
pub struct FrameProcessor {
    last_frame: Option<Vec<u8>>,
    width: u32,
    height: u32,
    tile_width: u32,
    tile_height: u32,
}

impl FrameProcessor {
    /// Frame width in pixels.
    pub closed spec fn spec_width(&self) -> nat {
        self.width as nat
    }

    /// Frame height in pixels.
    pub closed spec fn spec_height(&self) -> nat {
        self.height as nat
    }

    /// The reference frame: the last frame as the receiver holds it.
    pub closed spec fn reference(&self) -> Option<Seq<u8>> {
        match self.last_frame {
            Some(f) => Some(f@),
            None => None,
        }
    }

    pub closed spec fn wf(&self) -> bool {
        &&& self.tile_width == tiles_across(self.width as nat)
        &&& self.tile_height == tiles_across(self.height as nat)
        &&& (self.last_frame matches Some(f) ==> f@.len() == frame_len(
            self.width as nat,
            self.height as nat,
        ))
    }

    /// A processor for `width × height` frames, with no reference frame yet.
    pub fn new(width: u32, height: u32) -> (r: Self)
        ensures
            r.wf(),
            r.spec_width() == width,
            r.spec_height() == height,
            r.reference() is None,
    {
        let tile_width: u32 = ((width as u64 + 63) / 64) as u32;
        let tile_height: u32 = ((height as u64 + 63) / 64) as u32;
        FrameProcessor { last_frame: None, width, height, tile_width, tile_height }
    }

    pub fn width(&self) -> (r: u32)
        ensures
            r == self.spec_width(),
    {
        self.width
    }

    pub fn height(&self) -> (r: u32)
        ensures
            r == self.spec_height(),
    {
        self.height
    }

    /// The reference frame, if a frame was processed.
    pub fn reference_frame(&self) -> (r: Option<&Vec<u8>>)
        ensures
            r matches Some(f) ==> self.reference() == Some(f@),
            r is None <==> self.reference() is None,
    {
        match &self.last_frame {
            Some(f) => Some(f),
            None => None,
        }
    }

    /// Decides keyframe or delta for `frame` and updates the reference frame.
    ///
    /// The first frame, a forced keyframe, or a frame in which more than 60%
    /// of the tiles changed is sent whole; otherwise the changed tiles are
    /// sent and written over the reference frame. A frame whose length does
    /// not match this processor's size is refused; a change of size goes
    /// through `process_frame_at_size`, which restarts the reference.
    pub fn process_frame(&mut self, frame: &Vec<u8>, force_keyframe: bool) -> (r: Result<
        ProcessedFrame,
        FrameError,
    >)
        requires
            old(self).wf(),
        ensures
            final(self).wf(),
            final(self).spec_width() == old(self).spec_width(),
            final(self).spec_height() == old(self).spec_height(),
            final(self).reference() matches Some(f) ==> f.len() == frame_len(
                final(self).spec_width(),
                final(self).spec_height(),
            ),
            frame@.len() != frame_len(old(self).spec_width(), old(self).spec_height()) ==> {
                &&& r == Err::<ProcessedFrame, FrameError>(FrameError::DimensionMismatch)
                &&& *final(self) == *old(self)
            },
            frame@.len() == frame_len(old(self).spec_width(), old(self).spec_height()) ==> {
                &&& r matches Ok(p)
                &&& processed(
                    old(self).reference(),
                    old(self).spec_width(),
                    old(self).spec_height(),
                    frame@,
                    force_keyframe,
                    p,
                )
                &&& final(self).reference() == apply_spec(
                    old(self).reference(),
                    old(self).spec_width(),
                    p,
                )
            },
    {
        let flen: usize = frame.len();
        assert((self.width as nat) * (self.height as nat) <= 0xffff_ffff * 0xffff_ffff)
            by (nonlinear_arith)
            requires
                self.width <= 0xffff_ffff,
                self.height <= 0xffff_ffff,
        ;
        let px: u64 = (self.width as u64) * (self.height as u64);
        if px > 0x5555_5555_5555_5555 || flen as u64 != px * 3 {
            return Err(FrameError::DimensionMismatch);
        }
        assert(frame@.len() == frame_len(self.width as nat, self.height as nat));
        let keyframe = match &self.last_frame {
            None => true,
            Some(_) => force_keyframe,
        };
        if keyframe {
            self.last_frame = Some(frame.clone());
            return Ok(ProcessedFrame {
                frame_type: FrameType::KeyFrame,
                data: frame.clone(),
                width: self.width,
                height: self.height,
                tiles: None,
            });
        }
        let prev: &Vec<u8> = match &self.last_frame {
            Some(f) => f,
            None => {
                return Err(FrameError::DimensionMismatch);
            },
        };
        let tiles = find_changed_tiles(prev, frame, self.width, self.height);
        assert((self.tile_width as nat) * (self.tile_height as nat) <= 0x4000000 * 0x4000000)
            by (nonlinear_arith)
            requires
                self.tile_width <= 0x4000000,
                self.tile_height <= 0x4000000,
        ;
        let total: u64 = (self.tile_width as u64) * (self.tile_height as u64);
        assert(tiles@.len() == changed_rects(prev@, frame@, self.width as nat, self.height as nat).len())
            by {
            assert(tiles@.map_values(|t: TileData| rect_of(t)).len() == tiles@.len());
        }
        proof {
            lemma_changed_upto_len(prev@, frame@, self.width as nat, self.height as nat, total as nat);
        }
        if (tiles.len() as u64) * 10 > total * 6 {
            self.last_frame = Some(frame.clone());
            return Ok(ProcessedFrame {
                frame_type: FrameType::KeyFrame,
                data: frame.clone(),
                width: self.width,
                height: self.height,
                tiles: None,
            });
        }
        let mut next: Vec<u8> = prev.clone();
        assert(next@ == prev@);
        let mut i: usize = 0;
        while i < tiles.len()
            invariant
                i <= tiles@.len(),
                all_fit(tiles@, self.width as nat, self.height as nat),
                prev@.len() == frame_len(self.width as nat, self.height as nat),
                next@ == overlay_all(prev@, self.width as nat, tiles@.subrange(0, i as int)),
                next@.len() == frame_len(self.width as nat, self.height as nat),
            decreases tiles@.len() - i,
        {
            assert(tiles@[i as int].fits(self.width as nat, self.height as nat));
            copy_tile_to_frame(&mut next, self.width, self.height, &tiles[i]);
            proof {
                let sub = tiles@.subrange(0, i + 1);
                assert(sub.drop_last() =~= tiles@.subrange(0, i as int));
                assert(sub.last() == tiles@[i as int]);
                lemma_overlay_rows_len(
                    overlay_all(prev@, self.width as nat, tiles@.subrange(0, i as int)),
                    self.width as nat,
                    self.height as nat,
                    tiles@[i as int].x as nat,
                    tiles@[i as int].y as nat,
                    tiles@[i as int].width as nat,
                    tiles@[i as int].height as nat,
                    tiles@[i as int].data@,
                    tiles@[i as int].height as nat,
                );
            }
            i = i + 1;
        }
        assert(tiles@.subrange(0, tiles@.len() as int) =~= tiles@);
        self.last_frame = Some(next);
        Ok(ProcessedFrame {
            frame_type: FrameType::DeltaFrame,
            data: Vec::new(),
            width: self.width,
            height: self.height,
            tiles: Some(tiles),
        })
    }

    /// Processes a `width × height` frame. A size other than the processor's
    /// restarts it: the reference is dropped, so the frame goes whole and
    /// becomes the new reference. A frame whose length is not
    /// `width * height * 3` is refused and changes nothing.
    pub fn process_frame_at_size(
        &mut self,
        frame: &Vec<u8>,
        width: u32,
        height: u32,
        force_keyframe: bool,
    ) -> (r: Result<ProcessedFrame, FrameError>)
        requires
            old(self).wf(),
        ensures
            final(self).wf(),
            final(self).reference() matches Some(f) ==> f.len() == frame_len(
                final(self).spec_width(),
                final(self).spec_height(),
            ),
            frame@.len() != frame_len(width as nat, height as nat) ==> {
                &&& r == Err::<ProcessedFrame, FrameError>(FrameError::DimensionMismatch)
                &&& *final(self) == *old(self)
            },
            frame@.len() == frame_len(width as nat, height as nat) ==> {
                let resized = width != old(self).spec_width() || height != old(self).spec_height();
                let prev = if resized {
                    None
                } else {
                    old(self).reference()
                };
                &&& r matches Ok(p)
                &&& final(self).spec_width() == width
                &&& final(self).spec_height() == height
                &&& processed(prev, width as nat, height as nat, frame@, force_keyframe, p)
                &&& final(self).reference() == apply_spec(prev, width as nat, p)
            },
    {
        let flen: usize = frame.len();
        assert((width as nat) * (height as nat) <= 0xffff_ffff * 0xffff_ffff) by (nonlinear_arith)
            requires
                width <= 0xffff_ffff,
                height <= 0xffff_ffff,
        ;
        let px: u64 = (width as u64) * (height as u64);
        assert(frame_len(width as nat, height as nat) == px * 3);
        if px > 0x5555_5555_5555_5555 || flen as u64 != px * 3 {
            assert(flen <= 0xffff_ffff_ffff_ffff);
            return Err(FrameError::DimensionMismatch);
        }
        if width != self.width || height != self.height {
            *self = FrameProcessor::new(width, height);
        }
        self.process_frame(frame, force_keyframe)
    }

    /// Writes the tiles of `delta` over `base_frame`, a frame of this
    /// processor's size. Nothing is written unless every tile fits.
    pub fn apply_delta(&self, base_frame: &mut Vec<u8>, delta: &ProcessedFrame) -> (r: Result<
        (),
        FrameError,
    >)
        ensures
            old(base_frame)@.len() != frame_len(self.spec_width(), self.spec_height()) ==> r
                == Err::<(), FrameError>(FrameError::DimensionMismatch),
            old(base_frame)@.len() == frame_len(self.spec_width(), self.spec_height()) ==> match delta.tiles {
                None => r is Ok,
                Some(ts) => if all_fit(ts@, self.spec_width(), self.spec_height()) {
                    r is Ok
                } else {
                    r == Err::<(), FrameError>(FrameError::TileOutOfBounds)
                },
            },
            r is Ok ==> final(base_frame)@ == match delta.tiles {
                Some(ts) => overlay_all(old(base_frame)@, self.spec_width(), ts@),
                None => old(base_frame)@,
            },
            r is Err ==> final(base_frame)@ == old(base_frame)@,
    {
        apply_tiles(base_frame, self.width, self.height, &delta.tiles)
    }
}

/// Writes `tiles` over a `fw × fh` frame, after checking that each fits.
fn apply_tiles(frame: &mut Vec<u8>, fw: u32, fh: u32, tiles: &Option<Vec<TileData>>) -> (r: Result<
    (),
    FrameError,
>)
    ensures
        old(frame)@.len() != frame_len(fw as nat, fh as nat) ==> r == Err::<(), FrameError>(
            FrameError::DimensionMismatch,
        ),
        old(frame)@.len() == frame_len(fw as nat, fh as nat) ==> match *tiles {
            None => r is Ok,
            Some(ts) => if all_fit(ts@, fw as nat, fh as nat) {
                r is Ok
            } else {
                r == Err::<(), FrameError>(FrameError::TileOutOfBounds)
            },
        },
        r is Ok ==> final(frame)@ == match *tiles {
            Some(ts) => overlay_all(old(frame)@, fw as nat, ts@),
            None => old(frame)@,
        },
        r is Err ==> final(frame)@ == old(frame)@,
        final(frame)@.len() == old(frame)@.len(),
{
    let flen: usize = frame.len();
    assert((fw as nat) * (fh as nat) <= 0xffff_ffff * 0xffff_ffff) by (nonlinear_arith)
        requires
            fw <= 0xffff_ffff,
            fh <= 0xffff_ffff,
    ;
    let px: u64 = (fw as u64) * (fh as u64);
    assert(frame_len(fw as nat, fh as nat) == px * 3);
    if px > 0x5555_5555_5555_5555 || flen as u64 != px * 3 {
        assert(flen <= 0xffff_ffff_ffff_ffff);
        return Err(FrameError::DimensionMismatch);
    }
    assert(frame@.len() == frame_len(fw as nat, fh as nat));
    let ts: &Vec<TileData> = match tiles {
        None => {
            return Ok(());
        },
        Some(ts) => ts,
    };
    let mut i: usize = 0;
    while i < ts.len()
        invariant
            i <= ts@.len(),
            frame@.len() == frame_len(fw as nat, fh as nat),
            *tiles == Some(*ts),
            forall|j: int| 0 <= j < i ==> (#[trigger] ts@[j]).fits(fw as nat, fh as nat),
        decreases ts@.len() - i,
    {
        let t = &ts[i];
        let fits = t.x as u64 + t.width as u64 <= fw as u64 && t.y as u64 + t.height as u64
            <= fh as u64 && tile_len_matches(t);
        if !fits {
            assert(!ts@[i as int].fits(fw as nat, fh as nat));
            return Err(FrameError::TileOutOfBounds);
        }
        i = i + 1;
    }
    assert(all_fit(ts@, fw as nat, fh as nat));
    let ghost f0 = frame@;
    let mut i: usize = 0;
    while i < ts.len()
        invariant
            i <= ts@.len(),
            all_fit(ts@, fw as nat, fh as nat),
            *tiles == Some(*ts),
            f0.len() == frame_len(fw as nat, fh as nat),
            frame@ == overlay_all(f0, fw as nat, ts@.subrange(0, i as int)),
            frame@.len() == frame_len(fw as nat, fh as nat),
        decreases ts@.len() - i,
    {
        assert(ts@[i as int].fits(fw as nat, fh as nat));
        copy_tile_to_frame(frame, fw, fh, &ts[i]);
        proof {
            let sub = ts@.subrange(0, i + 1);
            assert(sub.drop_last() =~= ts@.subrange(0, i as int));
            assert(sub.last() == ts@[i as int]);
            lemma_overlay_rows_len(
                overlay_all(f0, fw as nat, ts@.subrange(0, i as int)),
                fw as nat,
                fh as nat,
                ts@[i as int].x as nat,
                ts@[i as int].y as nat,
                ts@[i as int].width as nat,
                ts@[i as int].height as nat,
                ts@[i as int].data@,
                ts@[i as int].height as nat,
            );
        }
        i = i + 1;
    }
    assert(ts@.subrange(0, ts@.len() as int) =~= ts@);
    Ok(())
}

/// Tells whether a tile holds exactly one RGB triple per pixel.
fn tile_len_matches(t: &TileData) -> (r: bool)
    ensures
        r == (t.data@.len() == t.width * t.height * 3),
{
    assert((t.width as nat) * (t.height as nat) <= 0xffff_ffff * 0xffff_ffff) by (nonlinear_arith)
        requires
            t.width <= 0xffff_ffff,
            t.height <= 0xffff_ffff,
    ;
    let dlen: usize = t.data.len();
    let px: u64 = (t.width as u64) * (t.height as u64);
    if px > 0x5555_5555_5555_5555 {
        assert(dlen <= 0xffff_ffff_ffff_ffff);
        return false;
    }
    dlen as u64 == px * 3
}

proof fn lemma_changed_upto_len(prev: Seq<u8>, curr: Seq<u8>, fw: nat, fh: nat, k: nat)
    ensures
        changed_upto(prev, curr, fw, fh, k).len() <= k,
    decreases k,
{
    if k > 0 {
        lemma_changed_upto_len(prev, curr, fw, fh, (k - 1) as nat);
    }
}

/// The viewer's mirror of the host framebuffer.
pub struct FrameSink {
    current: Option<Vec<u8>>,
    width: u32,
    height: u32,
}

impl FrameSink {
    /// The frame the viewer holds.
    pub closed spec fn frame(&self) -> Option<Seq<u8>> {
        match self.current {
            Some(f) => Some(f@),
            None => None,
        }
    }

    pub closed spec fn spec_width(&self) -> nat {
        self.width as nat
    }

    pub closed spec fn spec_height(&self) -> nat {
        self.height as nat
    }

    pub closed spec fn wf(&self) -> bool {
        self.current matches Some(f) ==> f@.len() == frame_len(self.width as nat, self.height as nat)
    }

    /// A sink that holds no frame yet.
    pub fn new() -> (r: Self)
        ensures
            r.wf(),
            r.frame() is None,
    {
        FrameSink { current: None, width: 0, height: 0 }
    }

    /// The frame held, if any.
    pub fn current(&self) -> (r: Option<&Vec<u8>>)
        ensures
            r matches Some(f) ==> self.frame() == Some(f@),
            r is None <==> self.frame() is None,
    {
        match &self.current {
            Some(f) => Some(f),
            None => None,
        }
    }

    /// Applies one decoded frame: a keyframe replaces the frame held (and
    /// its size), a delta writes its tiles over it. A delta that arrives
    /// with no frame held is discarded. A frame that does not fit is refused
    /// and leaves the sink as it was.
    pub fn apply(&mut self, p: &ProcessedFrame) -> (r: Result<(), FrameError>)
        requires
            old(self).wf(),
        ensures
            final(self).wf(),
            r is Ok ==> final(self).frame() == apply_spec(old(self).frame(), old(self).spec_width(), *p),
            r is Err ==> final(self).frame() == old(self).frame(),
            p.frame_type == FrameType::KeyFrame ==> (r is Ok <==> p.data@.len() == frame_len(
                p.width as nat,
                p.height as nat,
            )),
            p.frame_type == FrameType::KeyFrame && r is Ok ==> final(self).spec_width() == p.width
                && final(self).spec_height() == p.height,
            p.frame_type == FrameType::DeltaFrame ==> final(self).spec_width() == old(self).spec_width(),
            p.frame_type == FrameType::DeltaFrame && old(self).frame() is None ==> r is Ok,
            p.frame_type == FrameType::DeltaFrame && old(self).frame() is Some ==> (r is Ok <==> (
            p.tiles matches Some(ts) ==> all_fit(ts@, old(self).spec_width(), old(self).spec_height()))),
    {
        match p.frame_type {
            FrameType::KeyFrame => {
                let flen: usize = p.data.len();
                assert((p.width as nat) * (p.height as nat) <= 0xffff_ffff * 0xffff_ffff)
                    by (nonlinear_arith)
                    requires
                        p.width <= 0xffff_ffff,
                        p.height <= 0xffff_ffff,
                ;
                let px: u64 = (p.width as u64) * (p.height as u64);
                assert(frame_len(p.width as nat, p.height as nat) == px * 3);
                if px > 0x5555_5555_5555_5555 || flen as u64 != px * 3 {
                    assert(flen <= 0xffff_ffff_ffff_ffff);
                    return Err(FrameError::DimensionMismatch);
                }
                self.current = Some(p.data.clone());
                self.width = p.width;
                self.height = p.height;
                Ok(())
            },
            FrameType::DeltaFrame => {
                match &mut self.current {
                    None => Ok(()),
                    Some(cur) => apply_tiles(cur, self.width, self.height, &p.tiles),
                }
            },
        }
    }
}

/// Once a run of frames begins with a keyframe, the frame it rebuilds does
/// not depend on what the receiver held before: a viewer that applies the
/// frames the host emitted ends with the host's reference frame, byte for byte.
pub proof fn lemma_reconstruction(
    host_start: Option<Seq<u8>>,
    viewer_start: Option<Seq<u8>>,
    fw: nat,
    frames: Seq<ProcessedFrame>,
)
    requires
        frames.len() >= 1,
        frames[0].frame_type == FrameType::KeyFrame,
    ensures
        replay(viewer_start, fw, frames) == replay(host_start, fw, frames),
    decreases frames.len(),
{
    if frames.len() > 1 {
        let init = frames.drop_last();
        assert(init[0] == frames[0]);
        lemma_reconstruction(host_start, viewer_start, fw, init);
    } else {
        assert(frames.last() == frames[0]);
    }
}

} // verus!
