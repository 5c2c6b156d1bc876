use vstd::prelude::*;

verus! {

/// The shade of a pixel; `Off` while the LCD is off.
#[derive(Debug, Clone, Copy, PartialEq, Eq, Hash, Structural)]
pub enum Color {
    Off,
    White,
    LightGray,
    DarkGray,
    Black,
}

/// What the PPU tells the front end.
#[derive(Debug, Clone, Copy, PartialEq, Eq, Hash, Structural)]
pub enum Event {
    /// A frame is complete.
    VBlank,
    /// The LCD was switched on.
    LCDOn,
    /// The LCD was switched off.
    LCDOff,
}

/// Width of the screen in pixels.
pub const WIDTH: usize = 160;
/// Height of the screen in pixels.
pub const HEIGHT: usize = 144;

/// The pixels of the LCD, row by row.
#[derive(Debug)]
pub struct Screen {
    pixels: Vec<Color>,
}

/// Every pixel off.
pub open spec fn all_off() -> Seq<Color> {
    Seq::new((WIDTH * HEIGHT) as nat, |i: int| Color::Off)
}

impl Screen {
    /// The pixels, row by row.
    pub closed spec fn view(&self) -> Seq<Color> {
        self.pixels@
    }

    #[verifier::type_invariant]
    closed spec fn wf(&self) -> bool {
        self.pixels@.len() == WIDTH * HEIGHT
    }

    fn off_pixels() -> (r: Vec<Color>)
        ensures
            r@ == all_off(),
    {
        let mut pixels: Vec<Color> = Vec::new();
        let mut i: usize = 0;
        while i < WIDTH * HEIGHT
            invariant
                i <= WIDTH * HEIGHT,
                pixels@ == Seq::new(i as nat, |k: int| Color::Off),
            decreases WIDTH * HEIGHT - i,
        {
            pixels.push(Color::Off);
            i = i + 1;
        }
        pixels
    }

    /// A screen with every pixel off.
    pub fn new() -> (r: Self)
        ensures
            r@ == all_off(),
    {
        Self { pixels: Self::off_pixels() }
    }

    /// The pixel at column `x` of row `y`.
    pub fn get_pixel(&self, x: usize, y: usize) -> (r: Color)
        requires
            x < WIDTH,
            y < HEIGHT,
        ensures
            self@.len() == WIDTH * HEIGHT,
            r == self@[y * WIDTH + x],
    {
        proof { use_type_invariant(self); }
        self.pixels[y * WIDTH + x]
    }

    /// Sets the pixel at column `x` of row `y`.
    pub fn set_pixel(&mut self, x: usize, y: usize, color: Color)
        requires
            x < WIDTH,
            y < HEIGHT,
        ensures
            final(self)@ == old(self)@.update(y * WIDTH + x, color),
        no_unwind
    {
        proof { use_type_invariant(&*self); }
        self.pixels[y * WIDTH + x] = color;
    }

    /// The pixels, row by row.
    pub fn pixels(&self) -> (r: &[Color])
        ensures
            r@ == self@,
            r@.len() == WIDTH * HEIGHT,
    {
        proof { use_type_invariant(self); }
        self.pixels.as_slice()
    }

    /// Switches every pixel off.
    pub fn off(&mut self)
        ensures
            final(self)@ == all_off(),
        no_unwind
    {
        proof { use_type_invariant(&*self); }
        let mut i: usize = 0;
        while i < WIDTH * HEIGHT
            invariant
                i <= WIDTH * HEIGHT,
                self.pixels@.len() == WIDTH * HEIGHT,
                forall|k: int| 0 <= k < i ==> self.pixels@[k] == Color::Off,
            decreases WIDTH * HEIGHT - i,
        {
            self.pixels[i] = Color::Off;
            i = i + 1;
        }
        assert(self.pixels@ =~= all_off());
    }
}

impl Default for Screen {
    fn default() -> (r: Self)
        ensures
            r@ == all_off(),
    {
        Self::new()
    }
}

/// What a front end does with the screen.
pub trait Renderer {
    /// The LCD was switched on.
    fn on(&mut self);

    /// The LCD was switched off.
    fn off(&mut self);

    /// A frame is complete.
    fn vblank(&mut self, screen: &Screen);
}

} // verus!
