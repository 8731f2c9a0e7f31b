//! QR rendering of the pairing payload: ASCII art for the terminal and an
//! RGBA8 bitmap for the window. The QR encoding itself is the `qrcode`
//! crate's; both renderings are drawn here from its modules.
use vstd::prelude::*;
use vstd::arithmetic::div_mod::{lemma_fundamental_div_mod_converse_div, lemma_fundamental_div_mod_converse_mod};
use vstd::utf8::encode_utf8;
use crate::text::{owned, push_char};

verus! {

/// The modules of a QR code: its side in modules (without the quiet zone)
/// and, row by row, whether each module is dark.
#[derive(Debug, Clone)]
pub struct QrModules {
    pub width: usize,
    pub dark: Vec<bool>,
}

/// What `qrcode::QrCode::new` makes of `data`: the side and the dark
/// modules of the code, or the text of its error.
pub uninterp spec fn qr_encoding(data: Seq<u8>) -> Result<(nat, Seq<bool>), Seq<char>>;

/// The texts that `qrcode::types::QrError` displays.
pub open spec fn qr_error_text(e: Seq<char>) -> bool {
    e == "data too long"@ || e == "invalid version"@ || e == "unsupported character set"@ || e
        == "invalid ECI designator"@ || e == "invalid character"@
}

/// `qrcode::QrCode::new` on `data`, read back through `width` and
/// `to_colors`. The crate only builds normal QR versions (1 to 40), whose
/// side is `4 * version + 17` modules, with one color per module; an error is
/// shown by its `Display` text.
#[verifier::external_body]
fn qr_encode(data: &[u8]) -> (r: Result<QrModules, String>)
    ensures
        match r {
            Ok(m) => qr_encoding(data@) == Ok::<(nat, Seq<bool>), Seq<char>>((m.width as nat, m.dark@))
                && 21 <= m.width <= 177 && m.width % 4 == 1 && m.dark@.len() == m.width * m.width,
            Err(e) => qr_encoding(data@) == Err::<(nat, Seq<bool>), Seq<char>>(e@) && qr_error_text(e@),
        },
{
    match qrcode::QrCode::new(data) {
        Ok(code) => Ok(
            QrModules {
                width: code.width(),
                dark: code.to_colors().into_iter().map(|c| c == qrcode::Color::Dark).collect(),
            },
        ),
        Err(e) => Err(e.to_string()),
    }
}

/// Modules of quiet zone around the code.
pub const QUIET_ZONE: usize = 4;

/// Whether the module at column `x`, row `y` of the code with its quiet zone
/// is dark.
pub open spec fn module_dark(width: nat, dark: Seq<bool>, x: int, y: int) -> bool {
    4 <= x < width + 4 && 4 <= y < width + 4 && dark[(y - 4) * width + (x - 4)]
}

/// One text row: `█` for a dark module, a space for a light one.
pub open spec fn ascii_row(width: nat, dark: Seq<bool>, y: int) -> Seq<char> {
    Seq::new(width + 8, |x: int| if module_dark(width, dark, x, y) { '\u{2588}' } else { ' ' })
}

/// The first `n` rows, joined by newlines.
pub open spec fn ascii_rows(width: nat, dark: Seq<bool>, n: nat) -> Seq<char>
    decreases n,
{
    if n == 0 {
        Seq::empty()
    } else if n == 1 {
        ascii_row(width, dark, 0)
    } else {
        ascii_rows(width, dark, (n - 1) as nat) + seq!['\n'] + ascii_row(width, dark, n - 1)
    }
}

/// The whole ASCII picture: every row of the code and its quiet zone.
pub open spec fn ascii_art(width: nat, dark: Seq<bool>) -> Seq<char> {
    ascii_rows(width, dark, width + 8)
}

proof fn lemma_module_index(width: nat, x: int, y: int)
    requires
        4 <= x < width + 4,
        4 <= y < width + 4,
    ensures
        0 <= (y - 4) * width + (x - 4) < width * width,
{
    let a = y - 4;
    let b = x - 4;
    assert(0 <= a * width) by (nonlinear_arith)
        requires
            0 <= a,
    ;
    assert(a * width + b < width * width) by (nonlinear_arith)
        requires
            0 <= a < width,
            0 <= b < width,
    ;
}

fn is_dark(m: &QrModules, x: usize, y: usize) -> (r: bool)
    requires
        m.dark@.len() == m.width * m.width,
        m.width <= 177,
    ensures
        r == module_dark(m.width as nat, m.dark@, x as int, y as int),
{
    if 4 <= x && x < m.width + 4 && 4 <= y && y < m.width + 4 {
        proof {
            lemma_module_index(m.width as nat, x as int, y as int);
            assert(0 <= (y - 4) * m.width <= (y - 4) * m.width + (x - 4));
            assert((y - 4) * m.width <= 177 * 177) by (nonlinear_arith)
                requires
                    y - 4 < m.width,
                    m.width <= 177,
            ;
        }
        m.dark[(y - 4) * m.width + (x - 4)]
    } else {
        false
    }
}

/// ASCII art of the modules; see [`ascii_art`].
pub fn render_modules_ascii(m: &QrModules) -> (r: String)
    requires
        m.dark@.len() == m.width * m.width,
        m.width <= 177,
    ensures
        r@ == ascii_art(m.width as nat, m.dark@),
{
    let side = m.width + 8;
    let mut out = String::new();
    let mut y: usize = 0;
    while y < side
        invariant
            side == m.width + 8,
            m.dark@.len() == m.width * m.width,
            m.width <= 177,
            y <= side,
            out@ == ascii_rows(m.width as nat, m.dark@, y as nat),
        decreases side - y,
    {
        let ghost prefix = if y == 0 { Seq::<char>::empty() } else { out@ + seq!['\n'] };
        if y > 0 {
            push_char(&mut out, '\n');
        }
        let mut x: usize = 0;
        while x < side
            invariant
                side == m.width + 8,
                m.dark@.len() == m.width * m.width,
                m.width <= 177,
                y < side,
                x <= side,
                out@ == prefix + ascii_row(m.width as nat, m.dark@, y as int).take(x as int),
            decreases side - x,
        {
            let c = if is_dark(m, x, y) { '\u{2588}' } else { ' ' };
            push_char(&mut out, c);
            assert(ascii_row(m.width as nat, m.dark@, y as int).take(x + 1) =~= ascii_row(
                m.width as nat,
                m.dark@,
                y as int,
            ).take(x as int).push(c));
            x = x + 1;
        }
        assert(ascii_row(m.width as nat, m.dark@, y as int).take(side as int) =~= ascii_row(
            m.width as nat,
            m.dark@,
            y as int,
        ));
        assert(out@ =~= ascii_rows(m.width as nat, m.dark@, (y + 1) as nat));
        y = y + 1;
    }
    out
}

/// QR code of `payload` as text, with its quiet zone and one character per
/// module; the encoder's error text when it cannot be encoded.
pub fn render_qr_ascii(payload: &str) -> (r: Result<String, String>)
    ensures
        match qr_encoding(encode_utf8(payload@)) {
            Ok((width, dark)) => r matches Ok(s) && s@ == ascii_art(width, dark),
            Err(e) => r matches Err(msg) && msg@ == e,
        },
{
    let code = qr_encode(payload.as_bytes());
    match code {
        Ok(m) => Ok(render_modules_ascii(&m)),
        Err(e) => Err(e),
    }
}

/// Byte `i` of the RGBA8 picture of the code, `module_px` pixels per module
/// and `side` pixels per row: opaque black on a dark module, opaque white
/// elsewhere.
pub open spec fn rgba_byte(width: nat, dark: Seq<bool>, module_px: nat, side: nat, i: int) -> u8 {
    let p = i / 4;
    let x = (p % side as int) / module_px as int;
    let y = (p / side as int) / module_px as int;
    if module_dark(width, dark, x, y) && i % 4 != 3 {
        0
    } else {
        255
    }
}

/// Side of the bitmap in pixels.
pub open spec fn bitmap_side(width: nat, module_px: nat) -> int {
    ((width + 8) * module_px) as int
}

/// Whether a bitmap of `side` pixels per row fits in memory addressing.
pub open spec fn bitmap_fits(side: int) -> bool {
    side * side * 4 <= usize::MAX
}

proof fn lemma_pixel_position(side: int, px: int, py: int, c: int)
    requires
        side > 0,
        0 <= px < side,
        0 <= py,
        0 <= c < 4,
    ensures
        ((py * side + px) * 4 + c) / 4 == py * side + px,
        ((py * side + px) * 4 + c) % 4 == c,
        (py * side + px) % side == px,
        (py * side + px) / side == py,
{
    lemma_fundamental_div_mod_converse_div((py * side + px) * 4 + c, 4, py * side + px, c);
    lemma_fundamental_div_mod_converse_mod((py * side + px) * 4 + c, 4, py * side + px, c);
    lemma_fundamental_div_mod_converse_div(py * side + px, side, py, px);
    lemma_fundamental_div_mod_converse_mod(py * side + px, side, py, px);
}

/// RGBA8 bitmap of the modules, `module_px` pixels per module: width,
/// height and bytes, or an error when `module_px` is zero or the side does
/// not fit in a `u32`.
pub fn rasterize_qr(m: &QrModules, module_px: u32) -> (r: Result<(u32, u32, Vec<u8>), String>)
    requires
        m.dark@.len() == m.width * m.width,
        m.width <= 177,
        module_px > 0 && bitmap_side(m.width as nat, module_px as nat) <= u32::MAX ==> bitmap_fits(
            bitmap_side(m.width as nat, module_px as nat),
        ),
    ensures
        module_px == 0 ==> (r matches Err(e) && e@ == "module_px must be > 0"@),
        module_px > 0 && bitmap_side(m.width as nat, module_px as nat) > u32::MAX ==> (r matches Err(e)
            && e@ == "QR bitmap too large"@),
        module_px > 0 && bitmap_side(m.width as nat, module_px as nat) <= u32::MAX ==> (r matches Ok(
            (w, h, rgba),
        ) && w == bitmap_side(m.width as nat, module_px as nat) && h == w && rgba@.len() == w * w * 4
            && forall|i: int|
            0 <= i < rgba@.len() ==> #[trigger] rgba@[i] == rgba_byte(
                m.width as nat,
                m.dark@,
                module_px as nat,
                w as nat,
                i,
            )),
{
    if module_px == 0 {
        return Err(owned("module_px must be > 0"));
    }
    let side_modules: u64 = (m.width + 8) as u64;
    assert(0 < side_modules * (module_px as u64) <= 185 * 0xffff_ffffu64) by (nonlinear_arith)
        requires
            8 <= side_modules <= 185,
            0 < module_px <= 0xffff_ffffu64,
    ;
    let side64: u64 = side_modules * (module_px as u64);
    if side64 > 0xffff_ffffu64 {
        return Err(owned("QR bitmap too large"));
    }
    let side_px: u32 = side64 as u32;
    let side: usize = side_px as usize;
    let ghost w = m.width as nat;
    let ghost d = m.dark@;
    let mut rgba: Vec<u8> = Vec::new();
    let mut py: usize = 0;
    while py < side
        invariant
            m.dark@.len() == m.width * m.width,
            m.width <= 177,
            w == m.width,
            d == m.dark@,
            module_px > 0,
            side > 0,
            side == side_px,
            side * side * 4 <= usize::MAX,
            py <= side,
            rgba@.len() == py * side * 4,
            forall|i: int|
                0 <= i < rgba@.len() ==> #[trigger] rgba@[i] == rgba_byte(w, d, module_px as nat, side as nat, i),
        decreases side - py,
    {
        let mut px: usize = 0;
        while px < side
            invariant
                m.dark@.len() == m.width * m.width,
                m.width <= 177,
                w == m.width,
                d == m.dark@,
                module_px > 0,
                side > 0,
                side * side * 4 <= usize::MAX,
                py < side,
                px <= side,
                rgba@.len() == (py * side + px) * 4,
                forall|i: int|
                    0 <= i < rgba@.len() ==> #[trigger] rgba@[i] == rgba_byte(w, d, module_px as nat, side as nat, i),
            decreases side - px,
        {
            let mx = px / (module_px as usize);
            let my = py / (module_px as usize);
            let dark = is_dark(m, mx, my);
            let shade: u8 = if dark { 0 } else { 255 };
            let ghost base = rgba@.len() as int;
            proof {
                assert(py * side + px < side * side) by (nonlinear_arith)
                    requires
                        py < side,
                        px < side,
                ;
                assert forall|c: int| 0 <= c < 4 implies #[trigger] rgba_byte(
                    w,
                    d,
                    module_px as nat,
                    side as nat,
                    base + c,
                ) == (if dark && c != 3 { 0u8 } else { 255u8 }) by {
                    lemma_pixel_position(side as int, px as int, py as int, c);
                }
            }
            let ghost before = rgba@;
            rgba.push(shade);
            rgba.push(shade);
            rgba.push(shade);
            rgba.push(255);
            proof {
                assert(rgba@ =~= before + seq![shade, shade, shade, 255u8]);
                assert(rgba_byte(w, d, module_px as nat, side as nat, base + 0) == rgba@[base + 0]);
                assert(rgba_byte(w, d, module_px as nat, side as nat, base + 1) == rgba@[base + 1]);
                assert(rgba_byte(w, d, module_px as nat, side as nat, base + 2) == rgba@[base + 2]);
                assert(rgba_byte(w, d, module_px as nat, side as nat, base + 3) == rgba@[base + 3]);
                assert forall|i: int| 0 <= i < rgba@.len() implies #[trigger] rgba@[i] == rgba_byte(
                    w,
                    d,
                    module_px as nat,
                    side as nat,
                    i,
                ) by {
                    if i >= base {
                        assert(i == base + 0 || i == base + 1 || i == base + 2 || i == base + 3);
                    } else {
                        assert(rgba@[i] == before[i]);
                    }
                }
            }
            assert(rgba@.len() == ((py * side + px) + 1) * 4) by (nonlinear_arith)
                requires
                    rgba@.len() == base + 4,
                    base == (py * side + px) * 4,
            ;
            px = px + 1;
        }
        assert(rgba@.len() == (py + 1) * side * 4) by (nonlinear_arith)
            requires
                rgba@.len() == (py * side + side) * 4,
        ;
        py = py + 1;
    }
    Ok((side_px, side_px, rgba))
}

/// QR code of `payload` as an RGBA8 bitmap, `module_px` pixels per module
/// including the quiet zone: `module_px` of zero, the encoder's error, a side
/// beyond `u32` or a bitmap beyond the address space are errors.
pub fn render_qr_rgba(payload: &str, module_px: u32) -> (r: Result<(u32, u32, Vec<u8>), String>)
    ensures
        module_px == 0 ==> (r matches Err(e) && e@ == "module_px must be > 0"@),
        module_px > 0 ==> match qr_encoding(encode_utf8(payload@)) {
            Err(e) => r matches Err(msg) && msg@ == e,
            Ok((width, dark)) => if bitmap_side(width, module_px as nat) > u32::MAX || !bitmap_fits(
                bitmap_side(width, module_px as nat),
            ) {
                r matches Err(e) && e@ == "QR bitmap too large"@
            } else {
                r matches Ok((w, h, rgba)) && w == bitmap_side(width, module_px as nat) && h == w
                    && rgba@.len() == w * w * 4 && forall|i: int|
                    0 <= i < rgba@.len() ==> #[trigger] rgba@[i] == rgba_byte(
                        width,
                        dark,
                        module_px as nat,
                        w as nat,
                        i,
                    )
            },
        },
{
    if module_px == 0 {
        return Err(owned("module_px must be > 0"));
    }
    let m = match qr_encode(payload.as_bytes()) {
        Ok(m) => m,
        Err(e) => return Err(e),
    };
    assert(0 < (m.width + 8) as u64 * (module_px as u64) <= 185 * 0xffff_ffffu64) by (nonlinear_arith)
        requires
            8 <= m.width + 8 <= 185,
            0 < module_px <= 0xffff_ffffu64,
    ;
    let side64: u64 = (m.width + 8) as u64 * (module_px as u64);
    if side64 > 0xffff_ffffu64 {
        return Err(owned("QR bitmap too large"));
    }
    let side = side64 as usize;
    let fits = match side.checked_mul(side) {
        Some(sq) => sq.checked_mul(4).is_some(),
        None => false,
    };
    if !fits {
        return Err(owned("QR bitmap too large"));
    }
    rasterize_qr(&m, module_px)
}

} // verus!
