use vstd::prelude::*;

verus! {

/// Brightness is a percentage.
pub const MAX_BRIGHTNESS: u8 = 100;

/// The state of one smart bulb.
#[derive(Debug)]
pub struct SmartBulb {
    pub name: String,
    pub is_on: bool,
    pub brightness: u8,
    pub color: (u8, u8, u8),
}

impl SmartBulb {
    /// Brightness never exceeds `MAX_BRIGHTNESS`.
    pub open spec fn wf(&self) -> bool {
        self.brightness <= MAX_BRIGHTNESS
    }

    /// A bulb that is off, at full brightness, and white.
    pub fn new(name: &str) -> (r: Self)
        ensures
            r.name@ == name@,
            !r.is_on,
            r.brightness == MAX_BRIGHTNESS,
            r.color == (255u8, 255u8, 255u8),
            r.wf(),
    {
        SmartBulb { name: name.to_owned(), is_on: false, brightness: MAX_BRIGHTNESS, color: (255, 255, 255) }
    }

    pub fn turn_on(&mut self)
        ensures
            final(self).is_on,
            final(self).name == old(self).name,
            final(self).brightness == old(self).brightness,
            final(self).color == old(self).color,
    {
        self.is_on = true;
    }

    pub fn turn_off(&mut self)
        ensures
            !final(self).is_on,
            final(self).name == old(self).name,
            final(self).brightness == old(self).brightness,
            final(self).color == old(self).color,
    {
        self.is_on = false;
    }

    /// Sets the brightness, capped at `MAX_BRIGHTNESS`.
    pub fn set_brightness(&mut self, brightness: u8)
        ensures
            final(self).brightness == if brightness <= MAX_BRIGHTNESS {
                brightness
            } else {
                MAX_BRIGHTNESS
            },
            final(self).wf(),
            final(self).name == old(self).name,
            final(self).is_on == old(self).is_on,
            final(self).color == old(self).color,
    {
        self.brightness = if brightness <= MAX_BRIGHTNESS {
            brightness
        } else {
            MAX_BRIGHTNESS
        };
    }

    pub fn set_color(&mut self, r: u8, g: u8, b: u8)
        ensures
            final(self).color == (r, g, b),
            final(self).name == old(self).name,
            final(self).is_on == old(self).is_on,
            final(self).brightness == old(self).brightness,
    {
        self.color = (r, g, b);
    }
}

} // verus!
