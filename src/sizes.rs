//! Standard picture sizes, grouped by aspect ratio, and the split of a picture
//! into horizontal bands.
use vstd::prelude::*;

verus! {

/// The index of the default size: group, then entry.
pub const DEFAULT_DIM: (usize, usize) = (0, 5);

/// The sizes, as (width, height), of each aspect-ratio group, in the order of
/// [`aspect_ratio_labels`].
pub fn image_sizes() -> (r: Vec<Vec<(u32, u32)>>)
    ensures
        r@.map_values(|v: Vec<(u32, u32)>| v@) == size_table(),
        r@.len() == 8,
{
    let r = vec![
        vec![(16, 16), (100, 100), (500, 500), (720, 720), (1080, 1080), (1200, 1200), (2048, 2048)],
        vec![(640, 360), (854, 480), (1280, 720), (1920, 1080), (2560, 1440)],
        vec![(1280, 540), (2560, 1080), (3440, 1440)],
        vec![(360, 640), (720, 1280), (1080, 1920), (1440, 2560)],
        vec![(640, 480), (1024, 768), (1600, 1200), (2048, 1536)],
        vec![(600, 400), (1200, 800), (1800, 1200)],
        vec![(800, 640), (1280, 1024)],
        vec![(600, 314), (1200, 628)],
    ];
    assert(r@.map_values(|v: Vec<(u32, u32)>| v@) =~= size_table());
    r
}

/// The standard sizes, as (width, height), by aspect-ratio group.
pub open spec fn size_table() -> Seq<Seq<(u32, u32)>> {
    seq![
        seq![(16u32, 16u32), (100, 100), (500, 500), (720, 720), (1080, 1080), (1200, 1200), (2048, 2048)],
        seq![(640u32, 360u32), (854, 480), (1280, 720), (1920, 1080), (2560, 1440)],
        seq![(1280u32, 540u32), (2560, 1080), (3440, 1440)],
        seq![(360u32, 640u32), (720, 1280), (1080, 1920), (1440, 2560)],
        seq![(640u32, 480u32), (1024, 768), (1600, 1200), (2048, 1536)],
        seq![(600u32, 400u32), (1200, 800), (1800, 1200)],
        seq![(800u32, 640u32), (1280, 1024)],
        seq![(600u32, 314u32), (1200, 628)],
    ]
}

/// The labels of the aspect-ratio groups of [`image_sizes`].
pub fn aspect_ratio_strings() -> (r: Vec<String>)
    ensures
        r@.len() == 8,
        r@[0]@ == "1:1"@,
        r@[7]@ == "1.91:1"@,
{
    vec![
        "1:1".to_owned(),
        "16:9".to_owned(),
        "21:9".to_owned(),
        "9:16".to_owned(),
        "4:3".to_owned(),
        "3:2".to_owned(),
        "5:4".to_owned(),
        "1.91:1".to_owned(),
    ]
}

/// The decimal digits of `n`, without leading zeros.
pub open spec fn decimal(n: nat) -> Seq<char>
    decreases n,
{
    if n < 10 {
        seq![(n + 48) as char]
    } else {
        decimal(n / 10).push(((n % 10) + 48) as char)
    }
}

/// Relies on `format!` with `Display` for `u32`: the decimal digits of each
/// number, around an `x`.
#[verifier::external_body]
fn size_label(w: u32, h: u32) -> (r: String)
    ensures
        r@ == decimal(w as nat) + seq!['x'] + decimal(h as nat),
{
    format!("{}x{}", w, h)
}

/// The sizes of aspect-ratio group `aspect_ratio`, each as `WIDTHxHEIGHT`;
/// none for an index past the groups.
pub fn dim_strings(aspect_ratio: usize) -> (r: Vec<String>)
    ensures
        aspect_ratio >= 8 ==> r@.len() == 0,
        aspect_ratio < 8 ==> r@.len() == size_table()[aspect_ratio as int].len() && forall|j: int|
            0 <= j < r@.len() ==> #[trigger] r@[j]@ == decimal(
                size_table()[aspect_ratio as int][j].0 as nat,
            ) + seq!['x'] + decimal(size_table()[aspect_ratio as int][j].1 as nat),
{
    let sizes = image_sizes();
    let mut out: Vec<String> = Vec::new();
    if aspect_ratio >= sizes.len() {
        return out;
    }
    let group = &sizes[aspect_ratio];
    assert(group@ == size_table()[aspect_ratio as int]);
    let mut j: usize = 0;
    while j < group.len()
        invariant
            j <= group@.len(),
            group@ == size_table()[aspect_ratio as int],
            out@.len() == j,
            forall|k: int|
                0 <= k < j ==> #[trigger] out@[k]@ == decimal(group@[k].0 as nat) + seq!['x']
                    + decimal(group@[k].1 as nat),
        decreases group@.len() - j,
    {
        let (w, h) = group[j];
        out.push(size_label(w, h));
        j = j + 1;
    }
    out
}

/// The bytes per pixel of a canvas buffer: red, green, blue and alpha.
pub const PIXEL_WIDTH: u32 = 4;

/// The size that a canvas is set to: an aspect-ratio group and an entry in it.
pub struct Canvas {
    pub dim: (usize, usize),
}

pub open spec fn size_at(dim: (usize, usize)) -> (u32, u32) {
    if dim.0 < 8 && dim.1 < size_table()[dim.0 as int].len() {
        size_table()[dim.0 as int][dim.1 as int]
    } else {
        (1200u32, 1200u32)
    }
}

impl Canvas {
    /// A canvas at the default size.
    pub fn new() -> (r: Canvas)
        ensures
            r.dim == DEFAULT_DIM,
    {
        Canvas { dim: DEFAULT_DIM }
    }

    /// The canvas's (width, height); the default size where its indices name
    /// no size.
    pub fn canvas_size(&self) -> (r: (u32, u32))
        ensures
            r == size_at(self.dim),
    {
        let sizes = image_sizes();
        let (g, i) = self.dim;
        if g < sizes.len() {
            assert(sizes@[g as int]@ == size_table()[g as int]);
            if i < sizes[g].len() {
                return sizes[g][i];
            }
        }
        get_default_size()
    }

    pub fn canvas_width(&self) -> (r: u32)
        ensures
            r == size_at(self.dim).0,
    {
        self.canvas_size().0
    }

    pub fn canvas_height(&self) -> (r: u32)
        ensures
            r == size_at(self.dim).1,
    {
        self.canvas_size().1
    }

    /// The aspect-ratio group that the canvas is set to.
    pub fn canvas_aspect_ratio(&self) -> (r: usize)
        ensures
            r == self.dim.0,
    {
        self.dim.0
    }

    /// The entry of the group that the canvas is set to.
    pub fn canvas_resolution(&self) -> (r: usize)
        ensures
            r == self.dim.1,
    {
        self.dim.1
    }

    /// The bytes of a buffer that holds the canvas's pixels.
    pub fn get_buffer_size(&self) -> (r: u64)
        ensures
            r == size_at(self.dim).0 as int * size_at(self.dim).1 as int * PIXEL_WIDTH,
    {
        let (w, h) = self.canvas_size();
        proof {
            vstd::arithmetic::mul::lemma_mul_upper_bound(
                w as int,
                u32::MAX as int,
                h as int,
                u32::MAX as int,
            );
        }
        assert((w as int * h as int) * 4 <= u32::MAX as int * u32::MAX as int * 4);
        (w as u64) * (h as u64) * 4
    }

    /// Sets the size to entry `size_index` of group `aspect_ratio`; `false`,
    /// with the size unchanged, where either index names nothing.
    pub fn set_size(&mut self, aspect_ratio: usize, size_index: usize) -> (r: bool)
        ensures
            r == (aspect_ratio < 8 && size_index < size_table()[aspect_ratio as int].len()),
            r ==> final(self).dim == (aspect_ratio, size_index),
            !r ==> final(self).dim == old(self).dim,
    {
        let sizes = image_sizes();
        if aspect_ratio >= sizes.len() {
            return false;
        }
        assert(sizes@[aspect_ratio as int]@ == size_table()[aspect_ratio as int]);
        if size_index >= sizes[aspect_ratio].len() {
            return false;
        }
        self.dim = (aspect_ratio, size_index);
        true
    }
}

/// The offset of pixel `(x, y)` in a row-major buffer `width` pixels wide.
pub fn get_index(x: u32, y: u32, width: u32) -> (r: usize)
    requires
        x < width,
        (y as int + 1) * width as int * PIXEL_WIDTH <= usize::MAX,
    ensures
        r == (y as int * width as int + x as int) * PIXEL_WIDTH,
{
    assert((y as int * width as int + x as int) * 4 < (y as int + 1) * width as int * 4) by (nonlinear_arith)
        requires
            x < width,
    ;
    assert(0 <= y as int * width as int) by (nonlinear_arith);
    let row = (y as usize) * (width as usize);
    ((row + x as usize) * 4) as usize
}

/// The default size: entry `DEFAULT_DIM.1` of group `DEFAULT_DIM.0`.
pub fn get_default_size() -> (r: (u32, u32))
    ensures
        r == (1200u32, 1200u32),
{
    let sizes = image_sizes();
    assert(sizes@[0]@ == size_table()[0]);
    sizes[DEFAULT_DIM.0][DEFAULT_DIM.1]
}

pub open spec fn area(p: (u32, u32)) -> int {
    p.0 as int * p.1 as int
}

/// The largest area among the first `j` sizes of group `g`.
pub open spec fn max_area_in(g: Seq<(u32, u32)>, j: int) -> int
    decreases j,
{
    if j <= 0 || j > g.len() {
        0
    } else {
        let m = max_area_in(g, j - 1);
        if area(g[j - 1]) > m {
            area(g[j - 1])
        } else {
            m
        }
    }
}

/// The largest area among the sizes of the first `i` groups.
pub open spec fn max_area(gs: Seq<Seq<(u32, u32)>>, i: int) -> int
    decreases i,
{
    if i <= 0 || i > gs.len() {
        0
    } else {
        let m = max_area(gs, i - 1);
        let here = max_area_in(gs[i - 1], gs[i - 1].len() as int);
        if here > m {
            here
        } else {
            m
        }
    }
}

/// The largest area, width times height, among `sizes`.
pub fn max_size_of(sizes: &Vec<Vec<(u32, u32)>>) -> (r: u64)
    ensures
        r == max_area(sizes@.map_values(|v: Vec<(u32, u32)>| v@), sizes@.len() as int),
{
    let ghost gs = sizes@.map_values(|v: Vec<(u32, u32)>| v@);
    let mut best: u64 = 0;
    let mut i: usize = 0;
    while i < sizes.len()
        invariant
            i <= sizes@.len(),
            gs == sizes@.map_values(|v: Vec<(u32, u32)>| v@),
            best == max_area(gs, i as int),
            best <= u32::MAX as int * u32::MAX as int,
        decreases sizes@.len() - i,
    {
        let group = &sizes[i];
        let mut here: u64 = 0;
        let mut j: usize = 0;
        while j < group.len()
            invariant
                i < sizes@.len(),
                j <= group@.len(),
                group@ == gs[i as int],
                here == max_area_in(gs[i as int], j as int),
                here <= u32::MAX as int * u32::MAX as int,
            decreases group@.len() - j,
        {
            let (w, h) = group[j];
            proof {
                vstd::arithmetic::mul::lemma_mul_upper_bound(
                    w as int,
                    u32::MAX as int,
                    h as int,
                    u32::MAX as int,
                );
            }
            let a = (w as u64) * (h as u64);
            if a > here {
                here = a;
            }
            j = j + 1;
        }
        if here > best {
            best = here;
        }
        i = i + 1;
    }
    best
}

/// The largest area among the standard sizes.
pub fn find_max_size() -> (r: u64)
    ensures
        r == max_area(size_table(), 8),
{
    let sizes = image_sizes();
    max_size_of(&sizes)
}

/// The rows `[start, end)` of band `part` when a picture of `height` rows is
/// cut into `parts` bands.
pub fn band(part: u32, parts: u32, height: u32) -> (r: (u32, u32))
    requires
        part < parts,
    ensures
        r.0 == part as int * height as int / parts as int,
        r.1 == (part as int + 1) * height as int / parts as int,
        r.0 <= r.1 <= height,
{
    let p = part as u64;
    let h = height as u64;
    let n = parts as u64;
    assert(p * h <= (p + 1) * h <= n * h <= u32::MAX as int * u32::MAX as int) by (nonlinear_arith)
        requires
            p < n,
            n <= u32::MAX,
            h <= u32::MAX,
    ;
    let start = p * h / n;
    let end = (p + 1) * h / n;
    proof {
        vstd::arithmetic::div_mod::lemma_div_is_ordered(p * h, (p + 1) * h, n as int);
        vstd::arithmetic::div_mod::lemma_div_is_ordered((p + 1) * h, n * h, n as int);
        vstd::arithmetic::div_mod::lemma_div_multiples_vanish(h as int, n as int);
    }
    (start as u32, end as u32)
}

} // verus!
