//! A grid of pixels and its text image: the plain PPM format, with the channel
//! levels in decimal and no text line longer than `LINE_SIZE` characters.
use vstd::prelude::*;

verus! {

/// The longest text line of an image.
pub const LINE_SIZE: usize = 70;

/// The level of a channel at full intensity.
pub const MAXIMUM_COLOUR_VALUE: usize = 255;

/// A pixel as the levels of its three channels, `0` to `MAXIMUM_COLOUR_VALUE`.
#[derive(Clone, Copy, Debug, PartialEq, Eq, Structural)]
pub struct Pixel {
    pub red: u8,
    pub green: u8,
    pub blue: u8,
}

impl Pixel {
    pub open spec fn black_spec() -> Pixel {
        Pixel { red: 0, green: 0, blue: 0 }
    }

    /// The pixel with every channel at level 0.
    pub fn black() -> (r: Pixel)
        ensures
            r == Pixel::black_spec(),
    {
        Pixel { red: 0, green: 0, blue: 0 }
    }
}

/// The character of the decimal digit `d`.
pub open spec fn digit_char(d: int) -> char {
    if d == 0 {
        '0'
    } else if d == 1 {
        '1'
    } else if d == 2 {
        '2'
    } else if d == 3 {
        '3'
    } else if d == 4 {
        '4'
    } else if d == 5 {
        '5'
    } else if d == 6 {
        '6'
    } else if d == 7 {
        '7'
    } else if d == 8 {
        '8'
    } else {
        '9'
    }
}

/// `n` in decimal, without leading zeros.
pub open spec fn decimal(n: nat) -> Seq<char>
    decreases n,
{
    if n < 10 {
        seq![digit_char(n as int)]
    } else {
        decimal(n / 10) + seq![digit_char(n as int % 10)]
    }
}

/// The levels of a row of pixels, three to a pixel: red, green, blue.
pub open spec fn channel_levels(row: Seq<Pixel>) -> Seq<u8>
    decreases row.len(),
{
    if row.len() == 0 {
        seq![]
    } else {
        channel_levels(row.drop_last()) + seq![row.last().red, row.last().green, row.last().blue]
    }
}

/// The levels `v[i..]` of one row as text, `line_len` characters being already on the
/// current line. Each level is followed by a space, or by a newline where the next
/// level would bring the line to `LINE_SIZE` characters or more; the last one by a
/// newline.
pub open spec fn wrapped(v: Seq<u8>, i: int, line_len: int) -> Seq<char>
    decreases v.len() - i,
{
    if i < 0 || i >= v.len() {
        seq![]
    } else if i + 1 == v.len() {
        decimal(v[i] as nat) + seq!['\n']
    } else if line_len + decimal(v[i] as nat).len() + decimal(v[i + 1] as nat).len() >= LINE_SIZE {
        decimal(v[i] as nat) + seq!['\n'] + wrapped(v, i + 1, 0)
    } else {
        decimal(v[i] as nat) + seq![' '] + wrapped(v, i + 1, line_len + decimal(v[i] as nat).len() + 1)
    }
}

/// The rows as text, top to bottom, each starting on a new line.
pub open spec fn rows_text(rows: Seq<Seq<Pixel>>) -> Seq<char>
    decreases rows.len(),
{
    if rows.len() == 0 {
        seq![]
    } else {
        rows_text(rows.drop_last()) + wrapped(channel_levels(rows.last()), 0, 0)
    }
}

/// The image header: format, size, and the level of full intensity.
pub open spec fn ppm_header(width: nat, height: nat) -> Seq<char> {
    seq!['P', '3', '\n'] + decimal(width) + seq![' '] + decimal(height) + seq!['\n', '2', '5', '5', '\n']
}

/// `width` columns by `height` rows of pixels; `(x, y)` is column `x` of row `y`.
pub struct Canvas {
    width: usize,
    height: usize,
    pixels: Vec<Vec<Pixel>>,
}

impl View for Canvas {
    type V = Seq<Seq<Pixel>>;

    /// The rows, top to bottom.
    closed spec fn view(&self) -> Seq<Seq<Pixel>> {
        self.pixels@.map_values(|row: Vec<Pixel>| row@)
    }
}

impl Canvas {
    /// The number of columns.
    pub closed spec fn columns(&self) -> nat {
        self.width as nat
    }

    /// There are `height` rows of `columns()` pixels each.
    pub closed spec fn wf(&self) -> bool {
        &&& self.pixels.len() == self.height
        &&& forall|y: int| 0 <= y < self.height ==> #[trigger] self.pixels@[y].len() == self.width
    }

    /// A canvas of the given size with every pixel black.
    pub fn new(width: usize, height: usize) -> (r: Canvas)
        ensures
            r.wf(),
            r.columns() == width,
            r@ == Seq::new(height as nat, |y: int| Seq::new(width as nat, |x: int| Pixel::black_spec())),
    {
        let mut pixels: Vec<Vec<Pixel>> = Vec::new();
        let mut y: usize = 0;
        while y < height
            invariant
                y <= height,
                pixels.len() == y,
                forall|j: int| 0 <= j < y ==> #[trigger] pixels@[j]@ == Seq::new(width as nat, |x: int| Pixel::black_spec()),
            decreases height - y,
        {
            let mut row: Vec<Pixel> = Vec::new();
            let mut x: usize = 0;
            while x < width
                invariant
                    x <= width,
                    row@ == Seq::new(x as nat, |i: int| Pixel::black_spec()),
                decreases width - x,
            {
                row.push(Pixel::black());
                x += 1;
                proof {
                    assert(row@ =~= Seq::new(x as nat, |i: int| Pixel::black_spec()));
                }
            }
            pixels.push(row);
            y += 1;
        }
        let r = Canvas { width, height, pixels };
        proof {
            assert(r@ =~~= Seq::new(height as nat, |y: int| Seq::new(width as nat, |x: int| Pixel::black_spec())));
        }
        r
    }

    /// The number of columns.
    pub fn width(&self) -> (r: usize)
        ensures
            r == self.columns(),
    {
        self.width
    }

    /// The number of rows.
    pub fn height(&self) -> (r: usize)
        requires
            self.wf(),
        ensures
            r == self@.len(),
    {
        self.height
    }

    /// The pixel in column `x` of row `y`.
    pub fn pixel_at(&self, x: usize, y: usize) -> (r: Pixel)
        requires
            self.wf(),
            x < self.columns(),
            y < self@.len(),
        ensures
            r == self@[y as int][x as int],
    {
        assert(self.pixels@[y as int].len() == self.width);
        self.pixels[y][x]
    }
}

/// Sets the pixel in column `x` of row `y` to `color`.
pub fn write_pixel(canvas: &mut Canvas, x: usize, y: usize, color: Pixel)
    requires
        old(canvas).wf(),
        x < old(canvas).columns(),
        y < old(canvas)@.len(),
    ensures
        final(canvas).wf(),
        final(canvas).columns() == old(canvas).columns(),
        final(canvas)@ == old(canvas)@.update(y as int, old(canvas)@[y as int].update(x as int, color)),
{
    let width = canvas.width;
    let mut row: Vec<Pixel> = Vec::new();
    let mut i: usize = 0;
    while i < width
        invariant
            canvas.wf(),
            width == canvas.width,
            y < canvas.height,
            i <= width,
            row@.len() == i,
            forall|j: int| 0 <= j < i ==> #[trigger] row@[j] == (if j == x { color } else { canvas@[y as int][j] }),
        decreases width - i,
    {
        assert(canvas.pixels@[y as int].len() == width);
        assert(canvas@[y as int] == canvas.pixels@[y as int]@);
        let p = if i == x { color } else { canvas.pixels[y][i] };
        row.push(p);
        i += 1;
    }
    let ghost before = canvas@;
    proof {
        assert(canvas.pixels@[y as int].len() == width);
        assert(before[y as int] == canvas.pixels@[y as int]@);
        assert(row@ =~= before[y as int].update(x as int, color));
    }
    canvas.pixels.set(y, row);
    proof {
        assert(canvas@ =~~= before.update(y as int, before[y as int].update(x as int, color)));
    }
}

/// Whether the coordinates `a` and `b` lie more than two apart.
pub fn within_range(a: usize, b: usize) -> (r: bool)
    ensures
        r == (a > b + 2 || b > a + 2),
{
    let diff = if a >= b { a - b } else { b - a };
    diff > 2
}

/// The one-character text of the digit `d`.
fn digit_str(d: usize) -> (r: &'static str)
    requires
        d < 10,
    ensures
        r@ == seq![digit_char(d as int)],
{
    proof {
        reveal_strlit("0");
        reveal_strlit("1");
        reveal_strlit("2");
        reveal_strlit("3");
        reveal_strlit("4");
        reveal_strlit("5");
        reveal_strlit("6");
        reveal_strlit("7");
        reveal_strlit("8");
        reveal_strlit("9");
    }
    if d == 0 {
        "0"
    } else if d == 1 {
        "1"
    } else if d == 2 {
        "2"
    } else if d == 3 {
        "3"
    } else if d == 4 {
        "4"
    } else if d == 5 {
        "5"
    } else if d == 6 {
        "6"
    } else if d == 7 {
        "7"
    } else if d == 8 {
        "8"
    } else {
        "9"
    }
}

/// Appends `n` in decimal.
fn append_decimal(out: &mut String, n: usize)
    ensures
        final(out)@ == old(out)@ + decimal(n as nat),
    decreases n,
{
    if n >= 10 {
        append_decimal(out, n / 10);
    }
    out.append(digit_str(n % 10));
    proof {
        if n >= 10 {
            assert(old(out)@ + decimal(n as nat) =~= old(out)@ + decimal((n / 10) as nat) + seq![digit_char(n as int % 10)]);
        }
    }
}

/// The number of characters of `n` in decimal.
fn decimal_len(n: u8) -> (r: usize)
    ensures
        r == decimal(n as nat).len(),
        1 <= r <= 3,
{
    proof {
        reveal_with_fuel(decimal, 3);
    }
    if n < 10 {
        1
    } else if n < 100 {
        2
    } else {
        3
    }
}

/// The header of the text image of `canvas`: the plain-format tag, the width and the height, and
/// the level of full intensity, each on its own line.
pub fn canvas_to_ppm_header(canvas: &mut Canvas) -> (r: String)
    requires
        old(canvas).wf(),
    ensures
        *final(canvas) == *old(canvas),
        r@ == ppm_header(old(canvas).columns(), old(canvas)@.len()),
{
    let mut out = String::new();
    proof {
        reveal_strlit("P3\n");
        reveal_strlit(" ");
        reveal_strlit("\n255\n");
    }
    out.append("P3\n");
    append_decimal(&mut out, canvas.width);
    out.append(" ");
    append_decimal(&mut out, canvas.height);
    out.append("\n255\n");
    proof {
        assert(out@ =~= ppm_header(canvas.columns(), canvas@.len()));
    }
    out
}

/// The levels of a row of pixels, three to a pixel.
fn row_levels(row: &Vec<Pixel>) -> (r: Vec<u8>)
    ensures
        r@ == channel_levels(row@),
{
    let mut v: Vec<u8> = Vec::new();
    let mut x: usize = 0;
    while x < row.len()
        invariant
            x <= row.len(),
            v@ == channel_levels(row@.take(x as int)),
        decreases row.len() - x,
    {
        let p = row[x];
        v.push(p.red);
        v.push(p.green);
        v.push(p.blue);
        proof {
            assert(row@.take(x + 1).drop_last() =~= row@.take(x as int));
            assert(v@ =~= channel_levels(row@.take(x + 1)));
        }
        x += 1;
    }
    proof {
        assert(row@.take(row.len() as int) =~= row@);
    }
    v
}

/// Appends the text of one row of levels.
fn append_row(out: &mut String, v: &Vec<u8>)
    ensures
        final(out)@ == old(out)@ + wrapped(v@, 0, 0),
{
    let ghost start = out@;
    let mut line_len: usize = 0;
    let mut i: usize = 0;
    while i < v.len()
        invariant
            i <= v.len(),
            line_len < LINE_SIZE,
            out@ + wrapped(v@, i as int, line_len as int) == start + wrapped(v@, 0, 0),
        decreases v.len() - i,
    {
        let ghost before = out@;
        proof {
            reveal_strlit(" ");
            reveal_strlit("\n");
        }
        let t = decimal_len(v[i]);
        append_decimal(out, v[i] as usize);
        if i + 1 == v.len() {
            out.append("\n");
            proof {
                assert(wrapped(v@, i + 1, 0) == Seq::<char>::empty());
                assert(out@ + wrapped(v@, i + 1, 0) =~= before + wrapped(v@, i as int, line_len as int));
            }
            line_len = 0;
        } else {
            let next = decimal_len(v[i + 1]);
            if line_len + t + next >= LINE_SIZE {
                out.append("\n");
                proof {
                    assert(out@ + wrapped(v@, i + 1, 0) =~= before + wrapped(v@, i as int, line_len as int));
                }
                line_len = 0;
            } else {
                out.append(" ");
                proof {
                    assert(out@ + wrapped(v@, i + 1, line_len + t + 1) =~= before + wrapped(v@, i as int, line_len as int));
                }
                line_len = line_len + t + 1;
            }
        }
        i += 1;
    }
    proof {
        assert(out@ =~= out@ + wrapped(v@, i as int, line_len as int));
    }
}

/// The whole text image of `canvas`: the header, then each row of pixels as its
/// levels in decimal, in lines of at most `LINE_SIZE` characters.
pub fn canvas_to_ppm(canvas: &mut Canvas) -> (r: String)
    requires
        old(canvas).wf(),
    ensures
        *final(canvas) == *old(canvas),
        r@ == ppm_header(old(canvas).columns(), old(canvas)@.len()) + rows_text(old(canvas)@),
{
    let mut out = canvas_to_ppm_header(canvas);
    let mut y: usize = 0;
    while y < canvas.height
        invariant
            canvas.wf(),
            y <= canvas.height,
            out@ == ppm_header(canvas.columns(), canvas@.len()) + rows_text(canvas@.take(y as int)),
        decreases canvas.height - y,
    {
        let levels = row_levels(&canvas.pixels[y]);
        append_row(&mut out, &levels);
        proof {
            assert(canvas@.take(y + 1).drop_last() =~= canvas@.take(y as int));
            assert(canvas@.take(y + 1).last() == canvas.pixels@[y as int]@);
        }
        y += 1;
    }
    proof {
        assert(canvas@.take(y as int) =~= canvas@);
    }
    out
}

} // verus!
