//! Backlight brightness levels and the three active-low control lines that
//! select them.
use vstd::prelude::*;

verus! {

/// Backlight brightness, from off to the brightest of seven levels.
#[derive(Clone, Copy, Debug, PartialEq, Eq, Structural, Hash)]
pub enum Brightness {
    Off,
    L1,
    L2,
    L3,
    L4,
    L5,
    L6,
    L7,
}

/// The level number of a brightness: 0 for `Off`, up to 7.
pub open spec fn level(b: Brightness) -> u8 {
    match b {
        Brightness::Off => 0,
        Brightness::L1 => 1,
        Brightness::L2 => 2,
        Brightness::L3 => 3,
        Brightness::L4 => 4,
        Brightness::L5 => 5,
        Brightness::L6 => 6,
        Brightness::L7 => 7,
    }
}

/// The brightness with level number `n` (at most 7).
pub open spec fn brightness_of_level(n: int) -> Brightness {
    if n <= 0 {
        Brightness::Off
    } else if n == 1 {
        Brightness::L1
    } else if n == 2 {
        Brightness::L2
    } else if n == 3 {
        Brightness::L3
    } else if n == 4 {
        Brightness::L4
    } else if n == 5 {
        Brightness::L5
    } else if n == 6 {
        Brightness::L6
    } else {
        Brightness::L7
    }
}

/// Label of a brightness as shown to the user.
pub open spec fn brightness_label(b: Brightness) -> Seq<char> {
    match b {
        Brightness::Off => "Off"@,
        Brightness::L1 => "1"@,
        Brightness::L2 => "2"@,
        Brightness::L3 => "3"@,
        Brightness::L4 => "4"@,
        Brightness::L5 => "5"@,
        Brightness::L6 => "6"@,
        Brightness::L7 => "Max"@,
    }
}

impl Default for Brightness {
    /// The brightest level.
    fn default() -> (r: Self)
        ensures
            r == Brightness::L7,
    {
        Brightness::brightest()
    }
}

impl Brightness {
    /// One level brighter; the brightest level stays.
    pub open spec fn brighter_spec(self) -> Brightness {
        brightness_of_level(if level(self) == 7 { 7 } else { level(self) + 1 })
    }

    /// One level darker; `Off` stays.
    pub open spec fn darker_spec(self) -> Brightness {
        brightness_of_level(if level(self) == 0 { 0 } else { level(self) - 1 })
    }

    /// The level number, 0 for `Off` up to 7.
    pub fn as_u8(self) -> (r: u8)
        ensures
            r == level(self),
            r <= 7,
    {
        match self {
            Brightness::Off => 0,
            Brightness::L1 => 1,
            Brightness::L2 => 2,
            Brightness::L3 => 3,
            Brightness::L4 => 4,
            Brightness::L5 => 5,
            Brightness::L6 => 6,
            Brightness::L7 => 7,
        }
    }

    /// The brightest level.
    pub fn brightest() -> (r: Self)
        ensures
            r == Brightness::L7,
    {
        Brightness::L7
    }

    /// The dimmest level that is not off.
    pub fn dimmest() -> (r: Self)
        ensures
            r == Brightness::L1,
    {
        Brightness::L1
    }

    /// One level brighter; the brightest level stays.
    pub fn brighter(self) -> (r: Self)
        ensures
            r == self.brighter_spec(),
    {
        match self {
            Brightness::Off => Brightness::L1,
            Brightness::L1 => Brightness::L2,
            Brightness::L2 => Brightness::L3,
            Brightness::L3 => Brightness::L4,
            Brightness::L4 => Brightness::L5,
            Brightness::L5 => Brightness::L6,
            Brightness::L6 => Brightness::L7,
            Brightness::L7 => Brightness::L7,
        }
    }

    /// One level darker; `Off` stays.
    pub fn darker(self) -> (r: Self)
        ensures
            r == self.darker_spec(),
    {
        match self {
            Brightness::Off => Brightness::Off,
            Brightness::L1 => Brightness::Off,
            Brightness::L2 => Brightness::L1,
            Brightness::L3 => Brightness::L2,
            Brightness::L4 => Brightness::L3,
            Brightness::L5 => Brightness::L4,
            Brightness::L6 => Brightness::L5,
            Brightness::L7 => Brightness::L6,
        }
    }

    /// The label shown to the user: "Off", "1" to "6", or "Max".
    pub fn label(self) -> (r: &'static str)
        ensures
            r@ == brightness_label(self),
    {
        match self {
            Brightness::Off => "Off",
            Brightness::L1 => "1",
            Brightness::L2 => "2",
            Brightness::L3 => "3",
            Brightness::L4 => "4",
            Brightness::L5 => "5",
            Brightness::L6 => "6",
            Brightness::L7 => "Max",
        }
    }
}

/// The backlight: its brightness and the levels of its three control lines
/// (`true` for driven high).
#[derive(Clone, Copy, Debug, PartialEq, Eq, Structural)]
pub struct Backlight {
    pub brightness: Brightness,
    pub low_high: bool,
    pub mid_high: bool,
    pub high_high: bool,
}

impl Backlight {
    /// The lines match the brightness.
    pub open spec fn wf(&self) -> bool {
        &&& self.low_high == (level(self.brightness) % 2 == 0)
        &&& self.mid_high == ((level(self.brightness) / 2) % 2 == 0)
        &&& self.high_high == (level(self.brightness) < 4)
    }

    /// A backlight at the default (brightest) level.
    pub fn new() -> (r: Self)
        ensures
            r.wf(),
            r.brightness == Brightness::L7,
    {
        let mut backlight = Backlight {
            brightness: Brightness::L7,
            low_high: true,
            mid_high: true,
            high_high: true,
        };
        backlight.set_brightness(Brightness::default());
        backlight
    }

    /// Switches the backlight off.
    pub fn off(&mut self)
        ensures
            final(self).wf(),
            final(self).brightness == Brightness::Off,
    {
        self.set_brightness(Brightness::Off);
    }

    /// One level brighter.
    pub fn brighter(&mut self)
        ensures
            final(self).wf(),
            final(self).brightness == old(self).brightness.brighter_spec(),
    {
        let b = self.brightness.brighter();
        self.set_brightness(b);
    }

    /// One level darker.
    pub fn darker(&mut self)
        ensures
            final(self).wf(),
            final(self).brightness == old(self).brightness.darker_spec(),
    {
        let b = self.brightness.darker();
        self.set_brightness(b);
    }

    /// The current brightness.
    pub fn brightness(&self) -> (r: Brightness)
        ensures
            r == self.brightness,
    {
        self.brightness
    }

    /// Drives the three lines for `brightness`: bit 0 of the level number
    /// selects the low line, bit 1 the middle one, bit 2 the high one, each
    /// pulled low when its bit is set.
    pub fn set_brightness(&mut self, brightness: Brightness)
        ensures
            final(self).wf(),
            final(self).brightness == brightness,
    {
        let b = brightness.as_u8();
        self.low_high = !(b & 0x01 > 0);
        self.mid_high = !(b & 0x02 > 0);
        self.high_high = !(b & 0x04 > 0);
        self.brightness = brightness;
        assert((b & 0x01 > 0) == (b % 2 == 1) && (b & 0x02 > 0) == ((b / 2) % 2 == 1) && (b & 0x04
            > 0) == (b >= 4)) by (bit_vector)
            requires
                b <= 7,
        ;
    }
}

} // verus!
