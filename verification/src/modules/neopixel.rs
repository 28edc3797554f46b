//! Addressable LEDs: the chip keeps the pixel buffer, this module fills it.
//!
//! Nothing is buffered on this side. Every color that is set goes straight
//! into the chip's pixel memory, in register writes that never exceed what
//! one write phase can carry, and `sync_neopixel` makes the chip latch its
//! buffer out to the string.
use vstd::prelude::*;
use rgb::ComponentSlice;
use crate::devices::SeesawDevice;
use vstd::slice::slice_subrange;
use crate::driver::{DriverExt, Reg};
use crate::error::SeesawError;

verus! {

/// WO - 8 bits
/// This register sets the pin number (PORTA) that is used for the NeoPixel
/// output.
pub const SET_PIN: Reg = [0x0E, 0x01];

/// WO - 8 bits
/// The protocol speed. (see `NeopixelSpeed`) Default is 800khz.
pub const SET_SPEED: Reg = [0x0E, 0x02];

/// WO - 16 bits
/// The number of bytes currently used for the pixel array. This is
/// dependent on when the pixels you are using are RGB or RGBW.
pub const SET_LEN: Reg = [0x0E, 0x03];

/// WO - 256 bits (32 bytes)
/// The data buffer. The first 2 bytes are the start address, and the data
/// to write follows. Data should be written in blocks of maximum size 30
/// bytes at a time.
pub const SET_BUF: Reg = [0x0E, 0x04];

/// W0 - Zero bits
/// Sending the SHOW command will cause the output to update. There's no
/// arguments/data after the command.
pub const SHOW: Reg = [0x0E, 0x05];

/// Microseconds the chip takes to reconfigure its LED output after the pin,
/// the speed or the buffer length was written.
pub const SETUP_TIME: u32 = 10_000;

/// `rgb::Grb`, with its public fields: green, red, blue.
#[verifier::external_type_specification]
#[verifier::reject_recursive_types(T)]
pub struct ExGrb<T>(rgb::Grb<T>);

/// `rgb::Rgb`, with its public fields: red, green, blue.
#[verifier::external_type_specification]
#[verifier::reject_recursive_types(T)]
pub struct ExRgb<T>(rgb::Rgb<T>);

/// `rgb::Rgba`, with its public fields: red, green, blue and a fourth
/// channel.
#[verifier::external_type_specification]
#[verifier::reject_recursive_types(T)]
#[verifier::reject_recursive_types(A)]
pub struct ExRgba<T, A>(rgb::Rgba<T, A>);

/// The channels of a green-red-blue pixel as `rgb`'s `as_slice` lays them
/// out: the struct's fields in declaration order, which is the order the
/// LED expects them in.
#[verifier::external_body]
#[allow(deprecated)]
fn grb_channels(color: &rgb::Grb<u8>) -> (bytes: [u8; 3])
    ensures
        bytes@ == seq![color.g, color.r, color.b],
{
    let s = color.as_slice();
    [s[0], s[1], s[2]]
}

/// The channels of a red-green-blue pixel as `rgb`'s `as_slice` lays them
/// out: the struct's fields in declaration order.
#[verifier::external_body]
#[allow(deprecated)]
fn rgb_channels(color: &rgb::Rgb<u8>) -> (bytes: [u8; 3])
    ensures
        bytes@ == seq![color.r, color.g, color.b],
{
    let s = color.as_slice();
    [s[0], s[1], s[2]]
}

/// The channels of a four-channel pixel as `rgb`'s `as_slice` lays them
/// out: red, green, blue, then the fourth channel, which on an RGBW string
/// drives the white LED.
#[verifier::external_body]
#[allow(deprecated)]
fn rgba_channels(color: &rgb::Rgba<u8>) -> (bytes: [u8; 4])
    ensures
        bytes@ == seq![color.r, color.g, color.b, color.a],
{
    let s = color.as_slice();
    [s[0], s[1], s[2], s[3]]
}

/// A pixel color as the chip stores it: three or four bytes in the channel
/// order of the LED type. The order is a property of the type, never a
/// decision taken while running; a wrong type gives wrong colors and no
/// error, since the chip cannot tell.
pub trait PixelColor: Copy {
    /// Bytes per pixel.
    const SIZE: usize;

    /// The bytes of the pixel in wire order.
    spec fn wire(&self) -> Seq<u8>;

    /// A pixel has three or four bytes.
    proof fn size_is_three_or_four()
        ensures
            Self::SIZE == 3 || Self::SIZE == 4,
    ;

    /// `wire` has as many bytes as the type says.
    proof fn wire_size(&self)
        ensures
            self.wire().len() == Self::SIZE,
    ;

    /// The `i`-th byte of the pixel in wire order.
    fn channel(&self, i: usize) -> (b: u8)
        requires
            i < Self::SIZE,
        ensures
            b == self.wire()[i as int],
    ;
}

impl PixelColor for rgb::Grb<u8> {
    const SIZE: usize = 3;

    open spec fn wire(&self) -> Seq<u8> {
        seq![self.g, self.r, self.b]
    }

    proof fn size_is_three_or_four()
        ensures
            Self::SIZE == 3,
    {
    }

    proof fn wire_size(&self) {
    }

    fn channel(&self, i: usize) -> (b: u8) {
        let bytes = grb_channels(self);
        bytes[i]
    }
}

impl PixelColor for rgb::Rgb<u8> {
    const SIZE: usize = 3;

    open spec fn wire(&self) -> Seq<u8> {
        seq![self.r, self.g, self.b]
    }

    proof fn size_is_three_or_four()
        ensures
            Self::SIZE == 3,
    {
    }

    proof fn wire_size(&self) {
    }

    fn channel(&self, i: usize) -> (b: u8) {
        let bytes = rgb_channels(self);
        bytes[i]
    }
}

impl PixelColor for rgb::Rgba<u8> {
    const SIZE: usize = 4;

    open spec fn wire(&self) -> Seq<u8> {
        seq![self.r, self.g, self.b, self.a]
    }

    proof fn size_is_three_or_four()
        ensures
            Self::SIZE == 4,
    {
    }

    proof fn wire_size(&self) {
    }

    fn channel(&self, i: usize) -> (b: u8) {
        let bytes = rgba_channels(self);
        bytes[i]
    }
}

/// NeopixelModule: The Neopixel protocol speed
#[derive(Debug, Clone, Copy, PartialEq, Eq, Structural)]
pub enum NeopixelSpeed {
    Khz400,
    Khz800,
}

impl NeopixelSpeed {
    /// The byte that selects the speed.
    pub open spec fn code(self) -> u8 {
        match self {
            NeopixelSpeed::Khz400 => 0,
            NeopixelSpeed::Khz800 => 1,
        }
    }
}

impl Default for NeopixelSpeed {
    fn default() -> (speed: Self)
        ensures
            speed == NeopixelSpeed::Khz800,
    {
        NeopixelSpeed::Khz800
    }
}

/// The most colors of `c_size` bytes each that one write carries: nine of
/// three bytes, seven of four. Either way they fit in the 30 bytes that
/// follow the two offset bytes. A color of any other size travels alone.
pub open spec fn max_colors(c_size: usize) -> usize {
    if c_size == 3 {
        9
    } else if c_size == 4 {
        7
    } else {
        1
    }
}

/// Get the maximum number of colors that can be written in a single write
/// operation as a function of the number of bytes per color
pub fn max_colors_per_write(c_size: usize) -> (n: usize)
    ensures
        n == max_colors(c_size),
{
    match c_size {
        3 => 9,  // 27
        4 => 7,  // 28
        _ => 1,  // effectively skips the optimization
    }
}

/// Get the number of bytes dedicated to writing colors in a single write
/// operation as a function of the number of bytes per color
pub fn color_bytes_per_write(c_size: usize) -> (n: usize)
    ensures
        n == c_size * max_colors(c_size),
        c_size == 3 || c_size == 4 ==> n <= 30,
{
    c_size * max_colors_per_write(c_size)
}

/// The bytes of a run of pixels: the wire bytes of each, one after another.
pub open spec fn pixel_bytes<C: PixelColor>(colors: Seq<C>) -> Seq<u8>
    decreases colors.len(),
{
    if colors.len() == 0 {
        Seq::empty()
    } else {
        pixel_bytes(colors.drop_last()) + colors.last().wire()
    }
}

/// How many writes it takes to send `n` colors, `per` at a time.
pub open spec fn chunk_count(n: int, per: int) -> int {
    (n + per - 1) / per
}

/// The index of the first color of chunk `i`.
pub open spec fn chunk_start(i: int, per: int) -> int {
    i * per
}

/// The index after the last color of chunk `i` of `n` colors: a chunk is
/// full unless the colors run out.
pub open spec fn chunk_end(n: int, i: int, per: int) -> int {
    if (i + 1) * per <= n {
        (i + 1) * per
    } else {
        n
    }
}

/// The colors of chunk `i`.
pub open spec fn chunk_colors<C: PixelColor>(colors: Seq<C>, i: int) -> Seq<C> {
    let per = max_colors(C::SIZE) as int;
    colors.subrange(chunk_start(i, per), chunk_end(colors.len() as int, i, per))
}

/// The offset of chunk `i` in the chip's pixel buffer, counted in bytes:
/// bytes per pixel times chunk index times colors per chunk.
pub open spec fn chunk_offset<C: PixelColor>(i: int) -> int {
    C::SIZE * i * max_colors(C::SIZE)
}

/// The payload of the write that carries chunk `i`: the offset, big-endian,
/// then the bytes of the chunk's colors.
pub open spec fn chunk_payload<C: PixelColor>(colors: Seq<C>, i: int) -> Seq<u8> {
    crate::codec::be16(chunk_offset::<C>(i) as u16) + pixel_bytes(chunk_colors(colors, i))
}

/// The writes that set a whole string: one per chunk, in increasing offset
/// order.
pub open spec fn chunk_plan<C: PixelColor>(colors: Seq<C>) -> Seq<crate::driver::Step> {
    Seq::new(
        chunk_count(colors.len() as int, max_colors(C::SIZE) as int) as nat,
        |i: int| crate::driver::Step::Write { reg: SET_BUF, payload: chunk_payload(colors, i) },
    )
}

/// The color bytes of the first `k` chunks, joined in chunk order.
pub open spec fn chunks_joined<C: PixelColor>(colors: Seq<C>, k: int) -> Seq<u8>
    decreases k,
{
    if k <= 0 {
        Seq::empty()
    } else {
        chunks_joined(colors, k - 1) + pixel_bytes(chunk_colors(colors, k - 1))
    }
}

/// A run of pixels has as many bytes as it has pixels, times the pixel size.
pub proof fn lemma_pixel_bytes_len<C: PixelColor>(colors: Seq<C>)
    ensures
        pixel_bytes(colors).len() == colors.len() * C::SIZE,
    decreases colors.len(),
{
    C::size_is_three_or_four();
    if colors.len() > 0 {
        lemma_pixel_bytes_len(colors.drop_last());
        colors.last().wire_size();
    }
}

/// The bytes of two runs of pixels joined are the bytes of the first, then
/// the bytes of the second.
pub proof fn lemma_pixel_bytes_join<C: PixelColor>(a: Seq<C>, b: Seq<C>)
    ensures
        pixel_bytes(a + b) == pixel_bytes(a) + pixel_bytes(b),
    decreases b.len(),
{
    if b.len() == 0 {
        assert(a + b =~= a);
        assert(pixel_bytes(a) + pixel_bytes(b) =~= pixel_bytes(a));
    } else {
        lemma_pixel_bytes_join(a, b.drop_last());
        assert((a + b).drop_last() =~= a + b.drop_last());
        assert((a + b).last() == b.last());
        assert(pixel_bytes(a + b) =~= pixel_bytes(a) + pixel_bytes(b));
    }
}

/// Where the chunks begin and end. Every chunk holds at least one color and
/// at most `max_colors`; each but the last is full; the last ends where the
/// colors end; and a chunk begins where the one before it ended.
pub proof fn lemma_chunk_bounds<C: PixelColor>(n: int, i: int)
    requires
        0 <= n,
        0 <= i < chunk_count(n, max_colors(C::SIZE) as int),
    ensures
        0 <= chunk_start(i, max_colors(C::SIZE) as int) < chunk_end(
            n,
            i,
            max_colors(C::SIZE) as int,
        ) <= n,
        chunk_end(n, i, max_colors(C::SIZE) as int) - chunk_start(i, max_colors(C::SIZE) as int)
            <= max_colors(C::SIZE),
        i + 1 < chunk_count(n, max_colors(C::SIZE) as int) ==> chunk_end(
            n,
            i,
            max_colors(C::SIZE) as int,
        ) == chunk_start(i + 1, max_colors(C::SIZE) as int),
        i + 1 == chunk_count(n, max_colors(C::SIZE) as int) ==> chunk_end(
            n,
            i,
            max_colors(C::SIZE) as int,
        ) == n,
        chunk_offset::<C>(i) == C::SIZE * chunk_start(i, max_colors(C::SIZE) as int),
{
    C::size_is_three_or_four();
    if C::SIZE == 3 {
        assert(max_colors(C::SIZE) == 9);
        assert(chunk_count(n, 9) == (n + 8) / 9);
        assert(chunk_start(i, 9) == i * 9);
        assert(chunk_offset::<C>(i) == 3 * i * 9);
    } else {
        assert(max_colors(C::SIZE) == 7);
        assert(chunk_count(n, 7) == (n + 6) / 7);
        assert(chunk_start(i, 7) == i * 7);
        assert(chunk_offset::<C>(i) == 4 * i * 7);
    }
}

/// No color is split across two chunks: the color bytes of a chunk are
/// whole pixels, they are the bytes the string has at the offset the chunk
/// is written to, and with the two offset bytes they fit one write.
pub proof fn lemma_chunks_hold_whole_colors<C: PixelColor>(colors: Seq<C>, i: int)
    requires
        0 <= i < chunk_count(colors.len() as int, max_colors(C::SIZE) as int),
    ensures
        pixel_bytes(chunk_colors(colors, i)).len() == C::SIZE * chunk_colors(colors, i).len(),
        1 <= chunk_colors(colors, i).len() <= max_colors(C::SIZE),
        chunk_payload(colors, i).len() == 2 + C::SIZE * chunk_colors(colors, i).len(),
        chunk_payload(colors, i).len() <= crate::driver::MAX_PAYLOAD,
        chunk_offset::<C>(i) + pixel_bytes(chunk_colors(colors, i)).len() <= pixel_bytes(
            colors,
        ).len(),
        pixel_bytes(chunk_colors(colors, i)) == pixel_bytes(colors).subrange(
            chunk_offset::<C>(i),
            chunk_offset::<C>(i) + pixel_bytes(chunk_colors(colors, i)).len(),
        ),
{
    let per = max_colors(C::SIZE) as int;
    let n = colors.len() as int;
    let s = chunk_start(i, per);
    let e = chunk_end(n, i, per);
    C::size_is_three_or_four();
    lemma_chunk_bounds::<C>(n, i);
    let head = colors.take(s);
    let mid = colors.subrange(s, e);
    let tail = colors.skip(e);
    assert(colors =~= head + mid + tail);
    lemma_pixel_bytes_join(head, mid);
    lemma_pixel_bytes_join(head + mid, tail);
    lemma_pixel_bytes_len(head);
    lemma_pixel_bytes_len(mid);
    lemma_pixel_bytes_len(tail);
    lemma_pixel_bytes_len(colors);
    assert(head.len() * C::SIZE == C::SIZE * s) by (nonlinear_arith)
        requires
            head.len() == s,
    ;
    assert(mid.len() * C::SIZE == C::SIZE * mid.len()) by (nonlinear_arith);
    assert(C::SIZE * mid.len() <= 28) by (nonlinear_arith)
        requires
            (C::SIZE == 3 && mid.len() <= 9) || (C::SIZE == 4 && mid.len() <= 7),
    ;
    assert(pixel_bytes(mid) =~= pixel_bytes(colors).subrange(
        C::SIZE * s,
        C::SIZE * s + pixel_bytes(mid).len(),
    ));
}

/// The chunks are written at strictly increasing offsets, and on a string
/// whose pixel buffer can be addressed with 16 bits every offset fits the
/// two bytes it is sent in.
pub proof fn lemma_chunk_offsets_increase<C: PixelColor>(n: int, i: int, j: int)
    requires
        0 <= n,
        0 <= i < j < chunk_count(n, max_colors(C::SIZE) as int),
        C::SIZE * n <= 0xFFFF,
    ensures
        0 <= chunk_offset::<C>(i) < chunk_offset::<C>(j) <= 0xFFFF,
        (chunk_offset::<C>(i) as u16) < (chunk_offset::<C>(j) as u16),
{
    C::size_is_three_or_four();
    lemma_chunk_bounds::<C>(n, j);
    let per = max_colors(C::SIZE) as int;
    assert(C::SIZE * chunk_start(j, per) <= C::SIZE * n) by (nonlinear_arith)
        requires
            chunk_start(j, per) <= n,
            C::SIZE >= 0,
    ;
    if C::SIZE == 3 {
        assert(chunk_offset::<C>(i) == 3 * i * 9);
        assert(chunk_offset::<C>(j) == 3 * j * 9);
    } else {
        assert(chunk_offset::<C>(i) == 4 * i * 7);
        assert(chunk_offset::<C>(j) == 4 * j * 7);
    }
}

/// The color bytes of the first `k` chunks, joined, are the bytes of the
/// colors up to where chunk `k - 1` ends.
pub proof fn lemma_chunks_joined_prefix<C: PixelColor>(colors: Seq<C>, k: int)
    requires
        1 <= k <= chunk_count(colors.len() as int, max_colors(C::SIZE) as int),
    ensures
        chunks_joined(colors, k) == pixel_bytes(
            colors.take(chunk_end(colors.len() as int, k - 1, max_colors(C::SIZE) as int)),
        ),
    decreases k,
{
    let per = max_colors(C::SIZE) as int;
    let n = colors.len() as int;
    let s = chunk_start(k - 1, per);
    let e = chunk_end(n, k - 1, per);
    lemma_chunk_bounds::<C>(n, k - 1);
    assert(colors.take(e) =~= colors.take(s) + colors.subrange(s, e));
    lemma_pixel_bytes_join(colors.take(s), colors.subrange(s, e));
    if k == 1 {
        assert(chunks_joined(colors, 0) =~= Seq::<u8>::empty());
        assert(colors.take(s) =~= Seq::<C>::empty());
        assert(chunks_joined(colors, 1) =~= pixel_bytes(colors.take(e)));
    } else {
        lemma_chunks_joined_prefix(colors, k - 1);
        lemma_chunk_bounds::<C>(n, k - 2);
    }
}

/// Chunking loses nothing and adds nothing: the color bytes of all chunks,
/// joined in the order in which they are written, are the bytes of the
/// string, and so there are as many of them as colors times bytes per
/// pixel.
pub proof fn lemma_chunks_cover<C: PixelColor>(colors: Seq<C>)
    ensures
        chunks_joined(colors, chunk_count(colors.len() as int, max_colors(C::SIZE) as int))
            == pixel_bytes(colors),
        chunks_joined(colors, chunk_count(colors.len() as int, max_colors(C::SIZE) as int)).len()
            == colors.len() * C::SIZE,
{
    let per = max_colors(C::SIZE) as int;
    let n = colors.len() as int;
    let count = chunk_count(n, per);
    C::size_is_three_or_four();
    lemma_pixel_bytes_len(colors);
    if count <= 0 {
        assert(n == 0);
        assert(chunks_joined(colors, count) =~= pixel_bytes(colors));
    } else {
        lemma_chunks_joined_prefix(colors, count);
        lemma_chunk_bounds::<C>(n, count - 1);
        assert(colors.take(n) =~= colors);
    }
}

/// Lays out the payload of one buffer write in `buf`: the byte offset of
/// color `start`, then the colors from `start` up to `end`. Returns the
/// length of the payload.
fn fill_payload<C: PixelColor>(buf: &mut [u8; 32], colors: &[C], start: usize, end: usize) -> (len:
    usize)
    requires
        start <= end <= colors@.len(),
        end - start <= max_colors(C::SIZE),
        C::SIZE * colors@.len() <= 0xFFFF,
    ensures
        len == 2 + C::SIZE * (end - start),
        len <= crate::driver::MAX_PAYLOAD,
        final(buf)@.take(len as int) == crate::codec::be16((C::SIZE * start) as u16) + pixel_bytes(
            colors@.subrange(start as int, end as int),
        ),
{
    proof {
        C::size_is_three_or_four();
    }
    let size = C::SIZE;
    assert(size * start <= size * colors@.len()) by (nonlinear_arith)
        requires
            start <= colors@.len(),
    ;
    let head = crate::codec::u16_to_be((size * start) as u16);
    buf[0] = head[0];
    buf[1] = head[1];
    let mut j: usize = start;
    let mut at: usize = 2;
    assert(size * (end - start) <= 28) by (nonlinear_arith)
        requires
            (size == 3 && end - start <= 9) || (size == 4 && end - start <= 7),
            start <= end,
    ;
    assert(size * (j - start) == 0) by (nonlinear_arith)
        requires
            j == start,
    ;
    assert(buf@.take(2) =~= crate::codec::be16((C::SIZE * start) as u16) + pixel_bytes(
        colors@.subrange(start as int, start as int),
    ));
    while j < end
        invariant
            start <= j <= end <= colors@.len(),
            end - start <= max_colors(C::SIZE),
            size == C::SIZE,
            size == 3 || size == 4,
            at == 2 + size * (j - start),
            size * (end - start) <= 28,
            buf@.take(at as int) == crate::codec::be16((C::SIZE * start) as u16) + pixel_bytes(
                colors@.subrange(start as int, j as int),
            ),
        decreases end - j,
    {
        let color = colors[j];
        let ghost done = buf@.take(at as int);
        proof {
            color.wire_size();
            assert(size * (j + 1 - start) == size * (j - start) + size) by (nonlinear_arith);
            assert(size * (j + 1 - start) <= size * (end - start)) by (nonlinear_arith)
                requires
                    j + 1 <= end,
                    start <= j,
            ;
        }
        let mut k: usize = 0;
        while k < size
            invariant
                k <= size,
                size == C::SIZE,
                size == 3 || size == 4,
                at + size <= 32,
                color.wire().len() == size,
                done.len() == at,
                forall|c: int| 0 <= c < at ==> buf@[c] == done[c],
                forall|c: int| 0 <= c < k ==> buf@[at + c] == color.wire()[c],
            decreases size - k,
        {
            buf[at + k] = color.channel(k);
            k += 1;
        }
        proof {
            let sent = colors@.subrange(start as int, j as int);
            let more = colors@.subrange(start as int, j as int + 1);
            assert(more.drop_last() =~= sent);
            assert(more.last() == color);
            assert(pixel_bytes(more) == pixel_bytes(sent) + color.wire());
            assert(buf@.take(at + size) =~= done + color.wire());
            assert(buf@.take(at + size) =~= crate::codec::be16((C::SIZE * start) as u16)
                + pixel_bytes(more));
        }
        at = at + size;
        j += 1;
    }
    at
}

/// The steps that prepare the LED output: the pin is set, then the length of
/// the pixel buffer in bytes, and after each the chip is given time to
/// reconfigure.
pub open spec fn enable_plan(pin: u8, buffer_bytes: u16) -> Seq<crate::driver::Step> {
    seq![
        crate::driver::Step::Write { reg: SET_PIN, payload: seq![pin] },
        crate::driver::Step::Pause { us: SETUP_TIME as nat },
        crate::driver::Step::Write { reg: SET_LEN, payload: crate::codec::be16(buffer_bytes) },
        crate::driver::Step::Pause { us: SETUP_TIME as nat },
    ]
}

/// The steps that select the protocol speed.
pub open spec fn speed_plan(speed: NeopixelSpeed) -> Seq<crate::driver::Step> {
    seq![
        crate::driver::Step::Write { reg: SET_SPEED, payload: seq![speed.code()] },
        crate::driver::Step::Pause { us: SETUP_TIME as nat },
    ]
}

/// The steps that make the chip latch its pixel buffer out to the string: a
/// write without payload to the trigger register, then the settle delay once
/// more before the call returns.
pub open spec fn show_plan() -> Seq<crate::driver::Step> {
    seq![
        crate::driver::Step::Write { reg: SHOW, payload: Seq::empty() },
        crate::driver::Step::Pause { us: crate::driver::DELAY_TIME as nat },
    ]
}

/// The payload that sets color `n` of the string: its byte offset, then its
/// bytes.
pub open spec fn nth_payload<C: PixelColor>(n: usize, color: C) -> Seq<u8> {
    crate::codec::be16((C::SIZE * n) as u16) + color.wire()
}

pub trait NeopixelModule<D: DriverExt>: SeesawDevice<Driver = D> {
    /// The color type of the LEDs, which fixes size and channel order.
    type Color: PixelColor;

    /// The number of neopixels on or connected to the device
    const N_LEDS: usize;

    /// The output pin of the neopixel signal
    const PIN: u8;

    /// The pixel buffer of the string can be addressed with 16 bits.
    proof fn strip_fits()
        ensures
            <Self::Color as PixelColor>::SIZE * Self::N_LEDS <= 0xFFFF,
    ;

    /// Set which pin the device sends the neopixel signal through and
    /// set the length of its internal pixel buffer
    fn enable_neopixel(&mut self) -> (r: Result<(), SeesawError<D::Error>>)
        ensures
            final(self).address() == old(self).address(),
            r is Err ==> r->Err_0 is I2c,
            crate::driver::ran(
                crate::devices::log(*old(self)),
                crate::devices::log(*final(self)),
                old(self).address(),
                enable_plan(Self::PIN, (<Self::Color as PixelColor>::SIZE * Self::N_LEDS) as u16),
                crate::error::bus_result(r),
            ),
    {
        proof {
            Self::strip_fits();
        }
        let addr = self.addr();
        let bytes = (<Self::Color as PixelColor>::SIZE * Self::N_LEDS) as u16;
        let ghost before = crate::devices::log(*self);
        let ghost plan = enable_plan(Self::PIN, bytes);
        proof {
            crate::driver::lemma_run_ok_start(before, addr, plan);
            crate::driver::lemma_run_ok_end::<D::Error>(addr, plan);
        }
        let r = self.driver().write_u8(addr, &SET_PIN, Self::PIN);
        let ghost l1 = crate::devices::log(*self);
        proof {
            crate::driver::lemma_run_write(before, before, l1, addr, plan, 0, r);
        }
        if r.is_err() {
            return crate::error::from_bus(r);
        }
        self.driver().delay_us(SETUP_TIME);
        let ghost l2 = crate::devices::log(*self);
        proof {
            crate::driver::lemma_run_pause(before, l1, l2, addr, plan, 1);
        }
        let r = self.driver().write_u16(addr, &SET_LEN, bytes);
        let ghost l3 = crate::devices::log(*self);
        proof {
            crate::driver::lemma_run_write(before, l2, l3, addr, plan, 2, r);
        }
        if r.is_err() {
            return crate::error::from_bus(r);
        }
        self.driver().delay_us(SETUP_TIME);
        proof {
            crate::driver::lemma_run_pause(
                before,
                l3,
                crate::devices::log(*self),
                addr,
                plan,
                3,
            );
        }
        Ok(())
    }

    /// Selects the protocol speed of the LED output.
    fn set_neopixel_speed(&mut self, speed: NeopixelSpeed) -> (r: Result<
        (),
        SeesawError<D::Error>,
    >)
        ensures
            final(self).address() == old(self).address(),
            r is Err ==> r->Err_0 is I2c,
            crate::driver::ran(
                crate::devices::log(*old(self)),
                crate::devices::log(*final(self)),
                old(self).address(),
                speed_plan(speed),
                crate::error::bus_result(r),
            ),
    {
        let addr = self.addr();
        let ghost before = crate::devices::log(*self);
        let ghost plan = speed_plan(speed);
        proof {
            crate::driver::lemma_run_ok_start(before, addr, plan);
            crate::driver::lemma_run_ok_end::<D::Error>(addr, plan);
        }
        let code: u8 = match speed {
            NeopixelSpeed::Khz400 => 0,
            NeopixelSpeed::Khz800 => 1,
        };
        let r = self.driver().write_u8(addr, &SET_SPEED, code);
        let ghost l1 = crate::devices::log(*self);
        proof {
            crate::driver::lemma_run_write(before, before, l1, addr, plan, 0, r);
        }
        if r.is_err() {
            return crate::error::from_bus(r);
        }
        self.driver().delay_us(SETUP_TIME);
        proof {
            crate::driver::lemma_run_pause(
                before,
                l1,
                crate::devices::log(*self),
                addr,
                plan,
                1,
            );
        }
        Ok(())
    }

    /// Set the color of the first (and, in the case of some devices, only)
    /// neopixel
    fn set_neopixel_color(&mut self, color: Self::Color) -> (r: Result<(), SeesawError<D::Error>>)
        requires
            0 < Self::N_LEDS,
        ensures
            final(self).address() == old(self).address(),
            r is Err ==> r->Err_0 is I2c,
            crate::driver::wrote(
                crate::devices::log(*old(self)),
                crate::devices::log(*final(self)),
                old(self).address(),
                SET_BUF,
                nth_payload(0, color),
                crate::driver::DELAY_TIME as nat,
                crate::error::bus_result(r),
            ),
    {
        self.set_nth_neopixel_color(0, color)
    }

    /// Set the color of the nth neopixel
    fn set_nth_neopixel_color(&mut self, n: usize, color: Self::Color) -> (r: Result<
        (),
        SeesawError<D::Error>,
    >)
        requires
            n < Self::N_LEDS,
        ensures
            final(self).address() == old(self).address(),
            r is Err ==> r->Err_0 is I2c,
            crate::driver::wrote(
                crate::devices::log(*old(self)),
                crate::devices::log(*final(self)),
                old(self).address(),
                SET_BUF,
                nth_payload(n, color),
                crate::driver::DELAY_TIME as nat,
                crate::error::bus_result(r),
            ),
    {
        proof {
            Self::strip_fits();
            <Self::Color as PixelColor>::size_is_three_or_four();
            color.wire_size();
        }
        let size = <Self::Color as PixelColor>::SIZE;
        assert(size * n <= size * Self::N_LEDS) by (nonlinear_arith)
            requires
                n < Self::N_LEDS,
        ;
        let addr = self.addr();
        let head = crate::codec::u16_to_be((size * n) as u16);
        let mut buf = [0u8; 6];
        buf[0] = head[0];
        buf[1] = head[1];
        let mut k: usize = 0;
        while k < size
            invariant
                k <= size <= 4,
                size == <Self::Color as PixelColor>::SIZE,
                color.wire().len() == size,
                head@.len() == 2,
                buf@[0] == head@[0],
                buf@[1] == head@[1],
                forall|c: int| 0 <= c < k ==> buf@[2 + c] == color.wire()[c],
            decreases size - k,
        {
            buf[2 + k] = color.channel(k);
            k += 1;
        }
        let out = slice_subrange(buf.as_slice(), 0, 2 + size);
        assert(out@ =~= nth_payload(n, color));
        crate::error::from_bus(self.driver().register_write(addr, &SET_BUF, out))
    }

    /// Set the color of all neopixels
    ///
    /// Minimizes the number of transactions performed by chunking the `colors`
    /// array into the largest (max 30 byte) buffers possible. The chunks are
    /// written in increasing offset order, and nothing is written after a
    /// chunk that the transport refused.
    fn set_neopixel_colors(&mut self, colors: &[Self::Color]) -> (r: Result<
        (),
        SeesawError<D::Error>,
    >)
        requires
            colors@.len() == Self::N_LEDS,
        ensures
            final(self).address() == old(self).address(),
            r is Err ==> r->Err_0 is I2c,
            crate::driver::ran(
                crate::devices::log(*old(self)),
                crate::devices::log(*final(self)),
                old(self).address(),
                chunk_plan(colors@),
                crate::error::bus_result(r),
            ),
    {
        proof {
            Self::strip_fits();
            <Self::Color as PixelColor>::size_is_three_or_four();
        }
        let size = <Self::Color as PixelColor>::SIZE;
        let per = max_colors_per_write(size);
        let total = colors.len();
        let addr = self.addr();
        let ghost before = crate::devices::log(*self);
        let ghost plan = chunk_plan(colors@);
        let ghost count = chunk_count(total as int, per as int);
        let mut buf = [0u8; 32];
        let mut start: usize = 0;
        let ghost mut i: int = 0;
        proof {
            crate::driver::lemma_run_ok_start(before, addr, plan);
            crate::driver::lemma_run_ok_end::<D::Error>(addr, plan);
            assert(count == 0 <==> total == 0);
        }
        while start < total
            invariant
                total == colors@.len(),
                size == <Self::Color as PixelColor>::SIZE,
                size * total <= 0xFFFF,
                per == max_colors(size),
                per == 9 || per == 7,
                plan == chunk_plan(colors@),
                plan.len() == count,
                count == chunk_count(total as int, per as int),
                0 <= i <= count,
                i < count ==> start == chunk_start(i, per as int),
                i == count ==> start == total,
                self.address() == old(self).address(),
                addr == self.address(),
                before == crate::devices::log(*old(self)),
                crate::devices::log(*self) == before + crate::driver::run_ok::<D::Error>(
                    addr,
                    plan.take(i),
                ),
            decreases total - start,
        {
            proof {
                lemma_chunk_bounds::<Self::Color>(total as int, i);
                assert((i + 1) * per == i * per + per) by (nonlinear_arith);
            }
            let end = if total - start > per {
                start + per
            } else {
                total
            };
            assert(end == chunk_end(total as int, i, per as int));
            let len = fill_payload(&mut buf, colors, start, end);
            let out = slice_subrange(buf.as_slice(), 0, len);
            assert(out@ == chunk_payload(colors@, i));
            let ghost mid = crate::devices::log(*self);
            let r = self.driver().register_write(addr, &SET_BUF, out);
            proof {
                crate::driver::lemma_run_write(
                    before,
                    mid,
                    crate::devices::log(*self),
                    addr,
                    plan,
                    i,
                    r,
                );
            }
            if r.is_err() {
                return crate::error::from_bus(r);
            }
            start = end;
            proof {
                i = i + 1;
            }
        }
        Ok(())
    }

    /// Makes the chip show what its pixel buffer holds.
    fn sync_neopixel(&mut self) -> (r: Result<(), SeesawError<D::Error>>)
        ensures
            final(self).address() == old(self).address(),
            r is Err ==> r->Err_0 is I2c,
            crate::driver::ran(
                crate::devices::log(*old(self)),
                crate::devices::log(*final(self)),
                old(self).address(),
                show_plan(),
                crate::error::bus_result(r),
            ),
    {
        let addr = self.addr();
        let ghost before = crate::devices::log(*self);
        let ghost plan = show_plan();
        proof {
            crate::driver::lemma_run_ok_start(before, addr, plan);
            crate::driver::lemma_run_ok_end::<D::Error>(addr, plan);
        }
        let nothing: [u8; 0] = [];
        assert(nothing@ =~= Seq::<u8>::empty());
        let r = self.driver().register_write(addr, &SHOW, nothing.as_slice());
        let ghost l1 = crate::devices::log(*self);
        proof {
            crate::driver::lemma_run_write(before, before, l1, addr, plan, 0, r);
        }
        if r.is_err() {
            return crate::error::from_bus(r);
        }
        self.driver().delay_us(crate::driver::DELAY_TIME);
        proof {
            crate::driver::lemma_run_pause(
                before,
                l1,
                crate::devices::log(*self),
                addr,
                plan,
                1,
            );
        }
        Ok(())
    }
}

} // verus!
