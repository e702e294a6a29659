use vstd::prelude::*;

verus! {

/// Smallest radius a spawned circle is drawn with.
pub const MIN_RADIUS: i32 = 6;

/// Largest radius a spawned circle is drawn with.
pub const MAX_RADIUS: i32 = 20;

/// Largest speed, per axis and per tick, a spawned circle is drawn with.
pub const MAX_SPEED: i32 = 4;

/// Number of distinct colors (24-bit RGB).
pub const COLOR_COUNT: u32 = 0x100_0000;

/// One step along one axis: the position advances by the velocity; when it
/// would cross the low edge `r` or the high edge `size - r` it is clamped to
/// that edge and the velocity is negated.
pub open spec fn axis_step(p: int, v: int, r: int, size: int) -> (int, int) {
    let n = p + v;
    if n < r {
        (r, -v)
    } else if n > size - r {
        (size - r, -v)
    } else {
        (n, v)
    }
}

fn step_axis(p: i32, v: i32, r: i32, size: i32) -> (res: (i32, i32))
    requires
        v != i32::MIN,
        0 <= r,
        0 <= size,
    ensures
        (res.0 as int, res.1 as int) == axis_step(p as int, v as int, r as int, size as int),
{
    let n: i64 = p as i64 + v as i64;
    let high: i32 = size - r;
    if n < r as i64 {
        (r, -v)
    } else if n > high as i64 {
        (high, -v)
    } else {
        (n as i32, v)
    }
}

/// A circle of the overlay: position, velocity per tick, radius and a
/// 24-bit RGB color.
#[derive(Clone, Copy, Debug, PartialEq, Eq, Structural)]
pub struct ChaosCircle {
    pub x: i32,
    pub y: i32,
    pub vx: i32,
    pub vy: i32,
    pub radius: i32,
    pub color: u32,
}

impl ChaosCircle {
    /// A circle has a non-negative radius, and each velocity component can be
    /// negated.
    pub open spec fn wf(self) -> bool {
        &&& self.radius >= 0
        &&& self.vx != i32::MIN
        &&& self.vy != i32::MIN
    }

    /// The circle lies inside the rectangle `[0, w] x [0, h]`.
    pub open spec fn in_bounds(self, w: int, h: int) -> bool {
        &&& self.radius <= self.x <= w - self.radius
        &&& self.radius <= self.y <= h - self.radius
    }

    /// The circle after one tick inside the rectangle `[0, w] x [0, h]`.
    pub open spec fn stepped(self, w: int, h: int) -> ChaosCircle {
        let (nx, nvx) = axis_step(self.x as int, self.vx as int, self.radius as int, w);
        let (ny, nvy) = axis_step(self.y as int, self.vy as int, self.radius as int, h);
        ChaosCircle {
            x: nx as i32,
            y: ny as i32,
            vx: nvx as i32,
            vy: nvy as i32,
            ..self
        }
    }

    /// A circle with the given position, velocity, radius and color.
    pub fn new(x: i32, y: i32, vx: i32, vy: i32, radius: i32, color: u32) -> (r: ChaosCircle)
        requires
            radius >= 0,
            vx != i32::MIN,
            vy != i32::MIN,
        ensures
            r.wf(),
            r == (ChaosCircle { x, y, vx, vy, radius, color }),
    {
        ChaosCircle { x, y, vx, vy, radius, color }
    }

    /// Advances the circle by one tick inside the rectangle `[0, w] x [0, h]`,
    /// reflecting off the edges it would cross.
    pub fn update(&mut self, w: i32, h: i32)
        requires
            old(self).wf(),
            w >= 0,
            h >= 0,
        ensures
            *final(self) == old(self).stepped(w as int, h as int),
            final(self).wf(),
            2 * old(self).radius <= w && 2 * old(self).radius <= h ==> final(self).in_bounds(
                w as int,
                h as int,
            ),
    {
        let (nx, nvx) = step_axis(self.x, self.vx, self.radius, w);
        let (ny, nvy) = step_axis(self.y, self.vy, self.radius, h);
        self.x = nx;
        self.y = ny;
        self.vx = nvx;
        self.vy = nvy;
    }
}

/// Draws of a random source from which a new circle is made.
#[derive(Clone, Copy, Debug, PartialEq, Eq, Structural)]
pub struct SpawnDraw {
    pub x: u32,
    pub y: u32,
    pub vx: u32,
    pub vy: u32,
    pub radius: u32,
    pub color: u32,
}

/// Radius of a circle spawned from draw `d` in a `w` by `h` rectangle: drawn
/// in `[MIN_RADIUS, MAX_RADIUS]`, shrunk to fit the rectangle if needed.
pub open spec fn spawn_radius(d: SpawnDraw, w: int, h: int) -> int {
    let drawn = MIN_RADIUS + d.radius as int % (MAX_RADIUS - MIN_RADIUS + 1);
    let fit = if w / 2 < h / 2 { w / 2 } else { h / 2 };
    if drawn < fit { drawn } else { fit }
}

/// Velocity component drawn from `v`: in `[-MAX_SPEED, MAX_SPEED]`.
pub open spec fn spawn_speed(v: u32) -> int {
    v as int % (2 * MAX_SPEED + 1) - MAX_SPEED
}

/// The circle spawned from draw `d` in a `w` by `h` rectangle.
pub open spec fn spawned(d: SpawnDraw, w: int, h: int) -> ChaosCircle {
    let r = spawn_radius(d, w, h);
    ChaosCircle {
        x: (r + d.x as int % (w - 2 * r + 1)) as i32,
        y: (r + d.y as int % (h - 2 * r + 1)) as i32,
        vx: spawn_speed(d.vx) as i32,
        vy: spawn_speed(d.vy) as i32,
        radius: r as i32,
        color: (d.color as int % COLOR_COUNT as int) as u32,
    }
}

fn spawn_coordinate(draw: u32, r: i32, size: i32) -> (p: i32)
    requires
        0 <= r,
        2 * r <= size,
    ensures
        p == r + draw as int % (size - 2 * r + 1),
        r <= p <= size - r,
{
    let span: u64 = (size as i64 - 2 * r as i64 + 1) as u64;
    let off: u64 = draw as u64 % span;
    (r as i64 + off as i64) as i32
}

fn spawn_velocity(draw: u32) -> (v: i32)
    ensures
        v == spawn_speed(draw),
        -MAX_SPEED <= v <= MAX_SPEED,
{
    let m: u32 = draw % (2 * MAX_SPEED as u32 + 1);
    m as i32 - MAX_SPEED
}

/// The circle spawned from draw `d` in a `w` by `h` rectangle.
pub fn spawn_circle(d: SpawnDraw, w: i32, h: i32) -> (c: ChaosCircle)
    requires
        w >= 0,
        h >= 0,
    ensures
        c == spawned(d, w as int, h as int),
        c.wf(),
        c.in_bounds(w as int, h as int),
        0 <= c.radius <= MAX_RADIUS,
        2 * MAX_RADIUS <= w && 2 * MAX_RADIUS <= h ==> MIN_RADIUS <= c.radius,
        -MAX_SPEED <= c.vx <= MAX_SPEED,
        -MAX_SPEED <= c.vy <= MAX_SPEED,
        c.color < COLOR_COUNT,
{
    let drawn: i32 = MIN_RADIUS + (d.radius % ((MAX_RADIUS - MIN_RADIUS + 1) as u32)) as i32;
    let fit: i32 = if w / 2 < h / 2 { w / 2 } else { h / 2 };
    let r: i32 = if drawn < fit { drawn } else { fit };
    let x = spawn_coordinate(d.x, r, w);
    let y = spawn_coordinate(d.y, r, h);
    let vx = spawn_velocity(d.vx);
    let vy = spawn_velocity(d.vy);
    ChaosCircle { x, y, vx, vy, radius: r, color: d.color % COLOR_COUNT }
}

/// The circle after `n` ticks inside the rectangle `[0, w] x [0, h]`.
pub open spec fn stepped_times(c: ChaosCircle, w: int, h: int, n: nat) -> ChaosCircle
    decreases n,
{
    if n == 0 {
        c
    } else {
        stepped_times(c, w, h, (n - 1) as nat).stepped(w, h)
    }
}

/// One tick keeps a circle well formed and lands it inside any rectangle
/// whose sides are at least its diameter, wherever it started.
pub proof fn lemma_step_lands_in_bounds(c: ChaosCircle, w: int, h: int)
    requires
        c.wf(),
        2 * c.radius <= w,
        2 * c.radius <= h,
        w <= i32::MAX,
        h <= i32::MAX,
    ensures
        c.stepped(w, h).wf(),
        c.stepped(w, h).radius == c.radius,
        c.stepped(w, h).in_bounds(w, h),
{
}

/// Reflection is perfectly elastic: each velocity component keeps its
/// magnitude.
pub proof fn lemma_step_keeps_speed(c: ChaosCircle, w: int, h: int)
    requires
        c.wf(),
    ensures
        c.stepped(w, h).vx == c.vx || c.stepped(w, h).vx == -c.vx,
        c.stepped(w, h).vy == c.vy || c.stepped(w, h).vy == -c.vy,
{
}

/// A circle inside a rectangle whose sides exceed its diameter stays inside
/// it for any number of ticks.
pub proof fn lemma_stays_in_bounds(c: ChaosCircle, w: int, h: int, n: nat)
    requires
        c.wf(),
        c.in_bounds(w, h),
        2 * c.radius < w,
        2 * c.radius < h,
        w <= i32::MAX,
        h <= i32::MAX,
    ensures
        stepped_times(c, w, h, n).in_bounds(w, h),
        stepped_times(c, w, h, n).wf(),
        stepped_times(c, w, h, n).radius == c.radius,
    decreases n,
{
    if n > 0 {
        lemma_stays_in_bounds(c, w, h, (n - 1) as nat);
        lemma_step_lands_in_bounds(stepped_times(c, w, h, (n - 1) as nat), w, h);
    }
}

/// The overlay's circles, in spawn order, and the rectangle they move in.
pub struct ParticleField {
    pub circles: Vec<ChaosCircle>,
    pub width: i32,
    pub height: i32,
}

impl ParticleField {
    /// The rectangle has non-negative sides and every circle is well formed.
    pub open spec fn wf(&self) -> bool {
        &&& self.width >= 0
        &&& self.height >= 0
        &&& forall|i: int| 0 <= i < self.circles@.len() ==> (#[trigger] self.circles@[i]).wf()
    }

    /// An empty field in a `width` by `height` rectangle.
    pub fn new(width: i32, height: i32) -> (r: ParticleField)
        requires
            width >= 0,
            height >= 0,
        ensures
            r.wf(),
            r.circles@.len() == 0,
            r.width == width,
            r.height == height,
    {
        ParticleField { circles: Vec::new(), width, height }
    }

    /// Number of circles in the field.
    pub fn len(&self) -> (r: usize)
        ensures
            r == self.circles@.len(),
    {
        self.circles.len()
    }

    /// Changes the rectangle used by later updates and spawns; the circles
    /// are left where they are.
    pub fn resize(&mut self, width: i32, height: i32)
        requires
            old(self).wf(),
            width >= 0,
            height >= 0,
        ensures
            final(self).wf(),
            final(self).circles@ == old(self).circles@,
            final(self).width == width,
            final(self).height == height,
    {
        self.width = width;
        self.height = height;
    }

    /// Appends one circle made from `draw`; it lies inside the rectangle.
    pub fn spawn(&mut self, draw: SpawnDraw)
        requires
            old(self).wf(),
        ensures
            final(self).wf(),
            final(self).width == old(self).width,
            final(self).height == old(self).height,
            final(self).circles@ == old(self).circles@.push(
                spawned(draw, old(self).width as int, old(self).height as int),
            ),
            final(self).circles@.len() == old(self).circles@.len() + 1,
            final(self).circles@.last().in_bounds(old(self).width as int, old(self).height as int),
    {
        let c = spawn_circle(draw, self.width, self.height);
        self.circles.push(c);
        assert(forall|i: int| 0 <= i < self.circles@.len() ==> (#[trigger] self.circles@[i]).wf());
    }

    /// Advances every circle by one tick inside the field's rectangle.
    pub fn update_all(&mut self)
        requires
            old(self).wf(),
        ensures
            final(self).wf(),
            final(self).width == old(self).width,
            final(self).height == old(self).height,
            final(self).circles@.len() == old(self).circles@.len(),
            forall|i: int|
                0 <= i < old(self).circles@.len() ==> #[trigger] final(self).circles@[i]
                    == old(self).circles@[i].stepped(old(self).width as int, old(self).height as int),
            forall|i: int|
                0 <= i < old(self).circles@.len() && 2 * old(self).circles@[i].radius
                    <= old(self).width && 2 * old(self).circles@[i].radius <= old(self).height
                    ==> (#[trigger] final(self).circles@[i]).in_bounds(
                    old(self).width as int,
                    old(self).height as int,
                ),
    {
        let w = self.width;
        let h = self.height;
        let ghost before = self.circles@;
        let n = self.circles.len();
        let mut i: usize = 0;
        while i < n
            invariant
                0 <= w,
                0 <= h,
                n == before.len(),
                i <= n,
                self.width == w,
                self.height == h,
                self.circles@.len() == n,
                forall|j: int| 0 <= j < n ==> (#[trigger] before[j]).wf(),
                forall|j: int| 0 <= j < n ==> (#[trigger] self.circles@[j]).wf(),
                forall|j: int|
                    0 <= j < i ==> #[trigger] self.circles@[j] == before[j].stepped(
                        w as int,
                        h as int,
                    ),
                forall|j: int| i <= j < n ==> #[trigger] self.circles@[j] == before[j],
            decreases n - i,
        {
            let mut c = self.circles[i];
            c.update(w, h);
            self.circles.set(i, c);
            i = i + 1;
        }
        assert forall|j: int|
            0 <= j < n && 2 * before[j].radius <= w && 2 * before[j].radius <= h implies (
            #[trigger] self.circles@[j]).in_bounds(w as int, h as int) by {
            lemma_step_lands_in_bounds(before[j], w as int, h as int);
        }
    }
}

} // verus!
