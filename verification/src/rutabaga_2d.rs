//! The trivial 2D software component: resources are system-memory pixel
//! buffers, transfers are bounds-checked byte copies between caller-supplied
//! buffers and the host copy.

use vstd::prelude::*;

use crate::resource::Rutabaga2DInfo;
use crate::resource::RutabagaResource;
use crate::rutabaga_utils::ResourceCreate3D;
use crate::rutabaga_utils::RutabagaError;
use crate::rutabaga_utils::RutabagaResult;
use crate::rutabaga_utils::Transfer3D;

verus! {

/// Byte index of byte `c` of row `r` of a transfer rectangle anchored at
/// pixel `(x, y)` of an image `width` pixels wide, four bytes per pixel.
pub open spec fn row_col_index(width: int, x: int, y: int, r: int, c: int) -> int {
    ((y + r) * width + x) * 4 + c
}

/// Whether byte `i` of the host buffer lies inside the `w` by `h` pixel
/// rectangle anchored at `(x, y)`.
pub open spec fn in_rect(width: int, x: int, y: int, w: int, h: int, i: int) -> bool {
    exists|r: int, c: int|
        0 <= r < h && 0 <= c < 4 * w && i == #[trigger] row_col_index(width, x, y, r, c)
}

proof fn lemma_rci_mono(width: int, x: int, y: int, w: int, r1: int, c1: int, r2: int, c2: int)
    requires
        0 <= x,
        0 <= y,
        1 <= w,
        x + w <= width,
        0 <= r1 < r2,
        0 <= c1 < 4 * w,
        0 <= c2,
    ensures
        row_col_index(width, x, y, r1, c1) < row_col_index(width, x, y, r2, c2),
{
    assert(((y + r1) * width + x) * 4 + c1 < ((y + r2) * width + x) * 4 + c2) by (nonlinear_arith)
        requires
            0 <= x,
            0 <= y,
            1 <= w,
            x + w <= width,
            0 <= r1,
            r1 < r2,
            0 <= c1,
            c1 < 4 * w,
            0 <= c2,
    ;
}

/// Copies `data`, laid out as `h` rows of `4 * w` bytes, into the rectangle
/// anchored at `(x, y)` of a `width` pixels wide host buffer. Bytes outside
/// the rectangle are untouched.
fn write_rect(host: &mut Vec<u8>, width: u32, x: u32, y: u32, w: u32, h: u32, data: &[u8])
    requires
        1 <= w,
        1 <= h,
        x as int + w as int <= width as int,
        (y as int + h as int) * (width as int) * 4 <= old(host)@.len(),
        data@.len() == (h as int) * 4 * (w as int),
    ensures
        final(host)@.len() == old(host)@.len(),
        forall|r: int, c: int|
            0 <= r < h as int && 0 <= c < 4 * (w as int) ==> final(host)@[row_col_index(
                width as int,
                x as int,
                y as int,
                r,
                c,
            )] == data@[r * 4 * (w as int) + c],
        forall|i: int|
            0 <= i < old(host)@.len() && !in_rect(
                width as int,
                x as int,
                y as int,
                w as int,
                h as int,
                i,
            ) ==> final(host)@[i] == old(host)@[i],
{
    let ghost gw = width as int;
    let ghost gx = x as int;
    let ghost gy = y as int;
    let ghost grw = w as int;
    let ghost grh = h as int;
    let ghost orig = host@;
    let dlen: usize = data.len();
    let hlen: usize = host.len();
    proof {
        assert(4 * grw <= grh * 4 * grw) by (nonlinear_arith)
            requires
                1 <= grw,
                1 <= grh,
        ;
    }
    let w4: usize = 4 * (w as usize);
    let width_us: usize = width as usize;
    let mut r: usize = 0;
    while r < (h as usize)
        invariant
            1 <= grw,
            1 <= grh,
            gx + grw <= gw,
            (gy + grh) * gw * 4 <= orig.len(),
            data@.len() == grh * 4 * grw,
            w4 == 4 * grw,
            width_us == gw,
            gx == x as int && gy == y as int && gw == width as int && grw == w as int && grh
                == h as int,
            0 <= r <= grh,
            dlen == data@.len(),
            hlen == orig.len(),
            host@.len() == orig.len(),
            forall|rr: int, c: int|
                0 <= rr < r && 0 <= c < 4 * grw ==> host@[row_col_index(gw, gx, gy, rr, c)]
                    == data@[rr * 4 * grw + c],
            forall|i: int|
                0 <= i < orig.len() && !in_rect(gw, gx, gy, grw, grh, i) ==> host@[i] == orig[i],
        decreases grh - r,
    {
        proof {
            assert(0 <= gy + r <= (gy + grh) * gw * 4 && 0 <= (gy + r) * gw <= (gy + grh) * gw * 4
                && 0 <= (gy + r) * gw + gx <= (gy + grh) * gw * 4 && ((gy + r) * gw + gx) * 4 + 4
                * grw <= (gy + grh) * gw * 4) by (nonlinear_arith)
                requires
                    0 <= gx,
                    0 <= gy,
                    1 <= grw,
                    gx + grw <= gw,
                    0 <= r,
                    r < grh,
            ;
        }
        let row_base: usize = ((y as usize + r) * width_us + (x as usize)) * 4;
        let mut c: usize = 0;
        while c < w4
            invariant
                1 <= grw,
                1 <= grh,
                gx + grw <= gw,
                (gy + grh) * gw * 4 <= orig.len(),
                data@.len() == grh * 4 * grw,
                w4 == 4 * grw,
                width_us == gw,
                gx == x as int && gy == y as int && gw == width as int && grw == w as int && grh
                    == h as int,
                0 <= r < grh,
                row_base == ((gy + r) * gw + gx) * 4,
                row_base + 4 * grw <= (gy + grh) * gw * 4,
                0 <= c <= w4,
                dlen == data@.len(),
                hlen == orig.len(),
                host@.len() == orig.len(),
                forall|rr: int, cc: int|
                    0 <= rr < r && 0 <= cc < 4 * grw ==> host@[row_col_index(gw, gx, gy, rr, cc)]
                        == data@[rr * 4 * grw + cc],
                forall|i: int|
                    row_base <= i < row_base + c ==> host@[i] == data@[r * 4 * grw + (i
                        - row_base)],
                forall|i: int|
                    0 <= i < orig.len() && !in_rect(gw, gx, gy, grw, grh, i) ==> host@[i] == orig[i],
            decreases w4 - c,
        {
            proof {
                assert(r * (4 * grw) + c < grh * 4 * grw && 0 <= r * (4 * grw) && r * (4 * grw)
                    == r * 4 * grw) by (nonlinear_arith)
                    requires
                        0 <= r,
                        r < grh,
                        0 <= c,
                        c < 4 * grw,
                        1 <= grw,
                ;
            }
            let b = data[r * w4 + c];
            proof {
                assert(row_base + c < orig.len());
            }
            let ghost before = host@;
            host[row_base + c] = b;
            proof {
                // the byte just written is inside the rectangle
                assert(row_base + c == row_col_index(gw, gx, gy, r as int, c as int));
                assert(in_rect(gw, gx, gy, grw, grh, row_base + c));
                // earlier rows live at strictly smaller indices
                assert forall|rr: int, cc: int| 0 <= rr < r && 0 <= cc < 4 * grw implies host@[
                    row_col_index(gw, gx, gy, rr, cc)] == data@[rr * 4 * grw + cc] by {
                    lemma_rci_mono(gw, gx, gy, grw, rr, cc, r as int, c as int);
                    assert(host@[row_col_index(gw, gx, gy, rr, cc)] == before[row_col_index(
                        gw,
                        gx,
                        gy,
                        rr,
                        cc,
                    )]);
                }
            }
            c = c + 1;
        }
        proof {
            // the finished row joins the written prefix
            assert forall|rr: int, cc: int| 0 <= rr < r + 1 && 0 <= cc < 4 * grw implies host@[
                row_col_index(gw, gx, gy, rr, cc)] == data@[rr * 4 * grw + cc] by {
                if rr == r as int {
                    assert(row_col_index(gw, gx, gy, rr, cc) == row_base + cc);
                    assert(host@[row_base + cc] == data@[r * 4 * grw + ((row_base + cc)
                        - row_base)]);
                }
            }
        }
        r = r + 1;
    }
}

/// Reads the rectangle anchored at `(x, y)` out of the host buffer as `h`
/// rows of `4 * w` bytes.
fn read_rect(host: &Vec<u8>, width: u32, x: u32, y: u32, w: u32, h: u32) -> (r: Vec<u8>)
    requires
        1 <= w,
        1 <= h,
        x as int + w as int <= width as int,
        (y as int + h as int) * (width as int) * 4 <= host@.len(),
    ensures
        r@.len() == (h as int) * 4 * (w as int),
        forall|rr: int, c: int|
            0 <= rr < h as int && 0 <= c < 4 * (w as int) ==> r@[rr * 4 * (w as int) + c]
                == host@[row_col_index(width as int, x as int, y as int, rr, c)],
{
    let ghost gw = width as int;
    let ghost gx = x as int;
    let ghost gy = y as int;
    let ghost grw = w as int;
    let ghost grh = h as int;
    let hlen: usize = host.len();
    proof {
        assert(4 * grw <= (gy + grh) * gw * 4) by (nonlinear_arith)
            requires
                1 <= grw,
                1 <= grh,
                0 <= gy,
                gx + grw <= gw,
                0 <= gx,
        ;
    }
    let w4: usize = 4 * (w as usize);
    let width_us: usize = width as usize;
    let mut out: Vec<u8> = Vec::new();
    proof {
        assert(0 * 4 * grw == 0) by (nonlinear_arith);
    }
    let mut r: usize = 0;
    while r < (h as usize)
        invariant
            1 <= grw,
            1 <= grh,
            gx + grw <= gw,
            (gy + grh) * gw * 4 <= host@.len(),
            w4 == 4 * grw,
            width_us == gw,
            gx == x as int && gy == y as int && gw == width as int && grw == w as int && grh
                == h as int,
            0 <= r <= grh,
            hlen == host@.len(),
            out@.len() == r * 4 * grw,
            forall|rr: int, c: int|
                0 <= rr < r && 0 <= c < 4 * grw ==> out@[rr * 4 * grw + c] == host@[row_col_index(
                    gw,
                    gx,
                    gy,
                    rr,
                    c,
                )],
        decreases grh - r,
    {
        proof {
            assert(0 <= gy + r <= (gy + grh) * gw * 4 && 0 <= (gy + r) * gw <= (gy + grh) * gw * 4
                && 0 <= (gy + r) * gw + gx <= (gy + grh) * gw * 4 && ((gy + r) * gw + gx) * 4 + 4
                * grw <= (gy + grh) * gw * 4) by (nonlinear_arith)
                requires
                    0 <= gx,
                    0 <= gy,
                    1 <= grw,
                    gx + grw <= gw,
                    0 <= r,
                    r < grh,
            ;
            assert(r * 4 * grw + 4 * grw == (r + 1) * 4 * grw && (r + 1) * 4 * grw <= grh * 4 * grw)
                by (nonlinear_arith)
                requires
                    0 <= r,
                    r < grh,
                    1 <= grw,
            ;
        }
        let row_base: usize = ((y as usize + r) * width_us + (x as usize)) * 4;
        let ghost row_start = out@.len() as int;
        let mut c: usize = 0;
        while c < w4
            invariant
                1 <= grw,
                1 <= grh,
                gx + grw <= gw,
                (gy + grh) * gw * 4 <= host@.len(),
                w4 == 4 * grw,
                width_us == gw,
                gx == x as int && gy == y as int && gw == width as int && grw == w as int && grh
                    == h as int,
                0 <= r < grh,
                row_base == ((gy + r) * gw + gx) * 4,
                row_base + 4 * grw <= (gy + grh) * gw * 4,
                row_start == r * 4 * grw,
                0 <= c <= w4,
                hlen == host@.len(),
                out@.len() == row_start + c,
                forall|rr: int, cc: int|
                    0 <= rr < r && 0 <= cc < 4 * grw ==> out@[rr * 4 * grw + cc] == host@[
                        row_col_index(gw, gx, gy, rr, cc)],
                forall|i: int|
                    row_start <= i < row_start + c ==> out@[i] == host@[row_base + (i
                        - row_start)],
            decreases w4 - c,
        {
            proof {
                assert(row_base + c < host@.len());
            }
            let ghost before = out@;
            out.push(host[row_base + c]);
            proof {
                assert forall|rr: int, cc: int| 0 <= rr < r && 0 <= cc < 4 * grw implies out@[rr * 4
                    * grw + cc] == host@[row_col_index(gw, gx, gy, rr, cc)] by {
                    assert(rr * 4 * grw + cc < row_start) by (nonlinear_arith)
                        requires
                            0 <= rr < r,
                            0 <= cc < 4 * grw,
                            row_start == r * 4 * grw,
                            1 <= grw,
                    ;
                    assert(out@[rr * 4 * grw + cc] == before[rr * 4 * grw + cc]);
                }
            }
            c = c + 1;
        }
        proof {
            assert forall|rr: int, cc: int| 0 <= rr < r + 1 && 0 <= cc < 4 * grw implies out@[rr * 4
                * grw + cc] == host@[row_col_index(gw, gx, gy, rr, cc)] by {
                if rr == r as int {
                    assert(rr * 4 * grw + cc == row_start + cc);
                    assert(out@[row_start + cc] == host@[row_base + ((row_start + cc)
                        - row_start)]);
                    assert(row_col_index(gw, gx, gy, rr, cc) == row_base + cc);
                }
            }
        }
        r = r + 1;
    }
    out
}

/// A transfer rectangle the 2D component accepts: confined to the resource
/// geometry, mipmap level zero, and a single layer.
pub open spec fn transfer2d_in_bounds(width: int, height: int, t: Transfer3D) -> bool {
    &&& t.x as int + t.w as int <= width
    &&& t.y as int + t.h as int <= height
    &&& t.z == 0
    &&& t.d <= 1
    &&& t.level == 0
}

/// A freshly created 2D resource: no handle, no blob or 3D state, and a
/// zeroed host buffer covering the requested geometry.
pub open spec fn fresh_2d_resource(resource_id: u32, p: ResourceCreate3D, res: RutabagaResource) -> bool {
    &&& res.resource_id == resource_id
    &&& res.handle is None
    &&& res.blob == false
    &&& res.blob_mem == 0
    &&& res.blob_flags == 0
    &&& res.map_info is None
    &&& res.info_3d is None
    &&& res.vulkan_info is None
    &&& res.backing_iovecs is None
    &&& res.import_mask == 0
    &&& (res.info_2d matches Some(info) && info.width == p.width && info.height == p.height
        && info.host_mem@ == Seq::new(
        ((p.width as int) * (p.height as int) * 4) as nat,
        |i: int| 0u8,
    ))
}

/// Whether a requested 2D geometry is too large for a host allocation.
pub open spec fn create_3d_oversize(p: ResourceCreate3D) -> bool {
    (p.width as int) * (p.height as int) * 4 > usize::MAX as int
}

/// The result of a successful 2D transfer write: the rectangle of the host
/// buffer now holds `data`, everything else of the resource is unchanged.
pub open spec fn transfer_write_applied(
    before: RutabagaResource,
    after: RutabagaResource,
    transfer: Transfer3D,
    data: Seq<u8>,
) -> bool {
    &&& before.info_2d matches Some(info)
    &&& transfer2d_in_bounds(info.width as int, info.height as int, transfer)
    &&& data.len() == (transfer.h as int) * 4 * (transfer.w as int)
    &&& after == (RutabagaResource { info_2d: after.info_2d, ..before })
    &&& after.info_2d matches Some(new_info)
    &&& new_info.width == info.width
    &&& new_info.height == info.height
    &&& new_info.host_mem@.len() == info.host_mem@.len()
    &&& forall|rr: int, c: int|
        0 <= rr < transfer.h as int && 0 <= c < 4 * (transfer.w as int)
            ==> new_info.host_mem@[row_col_index(
            info.width as int,
            transfer.x as int,
            transfer.y as int,
            rr,
            c,
        )] == data[rr * 4 * (transfer.w as int) + c]
    &&& forall|i: int|
        0 <= i < info.host_mem@.len() && !in_rect(
            info.width as int,
            transfer.x as int,
            transfer.y as int,
            transfer.w as int,
            transfer.h as int,
            i,
        ) ==> new_info.host_mem@[i] == info.host_mem@[i]
}

/// When a 2D transfer write is rejected: no 2D state, a rectangle outside
/// the resource, or a data buffer that does not match the rectangle.
pub open spec fn transfer_write_rejected(
    res: RutabagaResource,
    transfer: Transfer3D,
    data: Seq<u8>,
) -> bool {
    res.info_2d is None || (res.info_2d matches Some(info) && (!transfer2d_in_bounds(
        info.width as int,
        info.height as int,
        transfer,
    ) || data.len() != (transfer.h as int) * 4 * (transfer.w as int)))
}

/// The bytes a successful 2D transfer read returns: the rectangle of the
/// host buffer, row-major.
pub open spec fn transfer_read_result(
    res: RutabagaResource,
    transfer: Transfer3D,
    out: Seq<u8>,
) -> bool {
    &&& res.info_2d matches Some(info)
    &&& transfer2d_in_bounds(info.width as int, info.height as int, transfer)
    &&& out.len() == (transfer.h as int) * 4 * (transfer.w as int)
    &&& forall|rr: int, c: int|
        0 <= rr < transfer.h as int && 0 <= c < 4 * (transfer.w as int) ==> out[rr * 4 * (
        transfer.w as int) + c] == info.host_mem@[row_col_index(
            info.width as int,
            transfer.x as int,
            transfer.y as int,
            rr,
            c,
        )]
}

/// When a 2D transfer read is rejected: no 2D state or a rectangle outside
/// the resource.
pub open spec fn transfer_read_rejected(res: RutabagaResource, transfer: Transfer3D) -> bool {
    res.info_2d is None || (res.info_2d matches Some(info) && !transfer2d_in_bounds(
        info.width as int,
        info.height as int,
        transfer,
    ))
}

/// The trivial 2D software rendering component.
pub struct Rutabaga2D {}

impl Rutabaga2D {
    /// Initializes the 2D component; initialization cannot fail.
    pub fn init() -> (r: RutabagaResult<Rutabaga2D>)
        ensures
            r is Ok,
    {
        Ok(Rutabaga2D {})
    }

    /// Creates a 2D resource: a zeroed host pixel buffer of the requested
    /// geometry. Fails only when the geometry cannot fit an allocation.
    pub fn create_3d(&self, resource_id: u32, resource_create_3d: ResourceCreate3D) -> (r:
        RutabagaResult<RutabagaResource>)
        ensures
            match r {
                Ok(res) => !create_3d_oversize(resource_create_3d) && fresh_2d_resource(
                    resource_id,
                    resource_create_3d,
                    res,
                ) && res.wf(),
                Err(e) => e == RutabagaError::SpecViolation && create_3d_oversize(
                    resource_create_3d,
                ),
            },
    {
        let w = resource_create_3d.width as u64;
        let h = resource_create_3d.height as u64;
        proof {
            assert(w * h <= 0xffff_ffffu64 * 0xffff_ffffu64) by (nonlinear_arith)
                requires
                    w <= 0xffff_ffffu64,
                    h <= 0xffff_ffffu64,
            ;
        }
        let pixels = w * h;
        if pixels > u64::MAX / 4 {
            proof {
                assert((pixels as int) * 4 > usize::MAX as int);
            }
            return Err(RutabagaError::SpecViolation);
        }
        let bytes = pixels * 4;
        if bytes > usize::MAX as u64 {
            return Err(RutabagaError::SpecViolation);
        }
        let len = bytes as usize;
        let mut host_mem: Vec<u8> = Vec::new();
        let mut i: usize = 0;
        while i < len
            invariant
                i <= len,
                host_mem@.len() == i,
                forall|j: int| 0 <= j < i ==> host_mem@[j] == 0u8,
            decreases len - i,
        {
            host_mem.push(0u8);
            i = i + 1;
        }
        proof {
            assert(host_mem@ =~= Seq::new(
                ((resource_create_3d.width as int) * (resource_create_3d.height as int) * 4) as nat,
                |j: int| 0u8,
            ));
        }
        Ok(
            RutabagaResource {
                resource_id,
                handle: None,
                blob: false,
                blob_mem: 0,
                blob_flags: 0,
                map_info: None,
                info_2d: Some(
                    Rutabaga2DInfo {
                        width: resource_create_3d.width,
                        height: resource_create_3d.height,
                        host_mem,
                    },
                ),
                info_3d: None,
                vulkan_info: None,
                backing_iovecs: None,
                import_mask: 0,
            },
        )
    }

    /// Copies `data`, the gathered guest bytes of the transfer rectangle,
    /// into the resource's host buffer. Bytes outside the rectangle are
    /// untouched; nothing is touched on error.
    pub fn transfer_write(&self, resource: &mut RutabagaResource, transfer: Transfer3D, data: &[u8])
        -> (r: RutabagaResult<()>)
        requires
            old(resource).wf(),
        ensures
            final(resource).wf(),
            match r {
                Ok(()) => transfer_write_applied(*old(resource), *final(resource), transfer, data@),
                Err(e) => {
                    &&& *final(resource) == *old(resource)
                    &&& e == RutabagaError::SpecViolation
                    &&& transfer_write_rejected(*old(resource), transfer, data@)
                },
            },
    {
        let info_opt = resource.info_2d.take();
        match info_opt {
            None => {
                Err(RutabagaError::SpecViolation)
            },
            Some(mut info) => {
                let ok = transfer.level == 0 && transfer.z == 0 && transfer.d <= 1 && transfer.x
                    as u64 + transfer.w as u64 <= info.width as u64 && transfer.y as u64 + transfer.h
                    as u64 <= info.height as u64;
                if !ok {
                    resource.info_2d = Some(info);
                    proof {
                        assert(*resource =~= *old(resource));
                    }
                    return Err(RutabagaError::SpecViolation);
                }
                proof {
                    assert(0 <= (transfer.h as int) * 4 * (transfer.w as int) < 0x1_0000_0000 * 4
                        * 0x1_0000_0000) by (nonlinear_arith)
                        requires
                            transfer.h < 0x1_0000_0000,
                            transfer.w < 0x1_0000_0000,
                    ;
                }
                let expected: u128 = (transfer.h as u128) * 4 * (transfer.w as u128);
                if data.len() as u128 != expected {
                    resource.info_2d = Some(info);
                    proof {
                        assert(*resource =~= *old(resource));
                    }
                    return Err(RutabagaError::SpecViolation);
                }
                if transfer.w == 0 || transfer.h == 0 {
                    resource.info_2d = Some(info);
                    proof {
                        assert(*resource =~= *old(resource));
                        assert(forall|i: int|
                            !in_rect(
                                info.width as int,
                                transfer.x as int,
                                transfer.y as int,
                                transfer.w as int,
                                transfer.h as int,
                                i,
                            ));
                    }
                    return Ok(());
                }
                proof {
                    assert((transfer.y as int + transfer.h as int) * (info.width as int) * 4 <= (
                    info.height as int) * (info.width as int) * 4) by (nonlinear_arith)
                        requires
                            transfer.y as int + transfer.h as int <= info.height as int,
                            1 <= info.width as int || true,
                            0 <= info.width as int,
                    ;
                    assert((info.height as int) * (info.width as int) * 4 == (info.width as int) * (
                    info.height as int) * 4) by (nonlinear_arith);
                }
                write_rect(
                    &mut info.host_mem,
                    info.width,
                    transfer.x,
                    transfer.y,
                    transfer.w,
                    transfer.h,
                    data,
                );
                resource.info_2d = Some(info);
                Ok(())
            },
        }
    }

    /// Reads the transfer rectangle out of the resource's host buffer; the
    /// embedder scatters the returned bytes into the guest backing or into
    /// the caller's buffer. Nothing is modified.
    pub fn transfer_read(&self, resource: &RutabagaResource, transfer: Transfer3D) -> (r:
        RutabagaResult<Vec<u8>>)
        requires
            resource.wf(),
        ensures
            match r {
                Ok(data) => transfer_read_result(*resource, transfer, data@),
                Err(e) => {
                    &&& e == RutabagaError::SpecViolation
                    &&& transfer_read_rejected(*resource, transfer)
                },
            },
    {
        match &resource.info_2d {
            None => Err(RutabagaError::SpecViolation),
            Some(info) => {
                let ok = transfer.level == 0 && transfer.z == 0 && transfer.d <= 1 && transfer.x
                    as u64 + transfer.w as u64 <= info.width as u64 && transfer.y as u64 + transfer.h
                    as u64 <= info.height as u64;
                if !ok {
                    return Err(RutabagaError::SpecViolation);
                }
                if transfer.w == 0 || transfer.h == 0 {
                    let empty: Vec<u8> = Vec::new();
                    proof {
                        assert(empty@.len() == (transfer.h as int) * 4 * (transfer.w as int))
                            by (nonlinear_arith)
                            requires
                                empty@.len() == 0,
                                transfer.w == 0 || transfer.h == 0,
                        ;
                    }
                    return Ok(empty);
                }
                proof {
                    assert((transfer.y as int + transfer.h as int) * (info.width as int) * 4 <= (
                    info.height as int) * (info.width as int) * 4) by (nonlinear_arith)
                        requires
                            transfer.y as int + transfer.h as int <= info.height as int,
                            0 <= info.width as int,
                    ;
                    assert((info.height as int) * (info.width as int) * 4 == (info.width as int) * (
                    info.height as int) * 4) by (nonlinear_arith);
                }
                Ok(read_rect(&info.host_mem, info.width, transfer.x, transfer.y, transfer.w,
                    transfer.h))
            },
        }
    }
}

} // verus!
